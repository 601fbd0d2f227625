//! The two-stage device registration handshake.
//!
//! A camera that sends an all-zero camera id asks for a new identity (first
//! stage): its user is looked up, a random device id is drawn and a device
//! row is inserted, drawing a new id whenever the insert hits the uniqueness
//! constraint. A camera that sends a non-zero id presents an identity it
//! claims to hold (second stage).
//!
//! The handshake waits on the persistence collaborator between its
//! decisions, so it is a state machine: [`Registration::start`] gives the
//! first request to the collaborator, and each answer is handed to
//! [`Registration::step`], which gives the next request or the outcome.
use vstd::prelude::*;
use crate::connection::PacketHandlerError;
use crate::model::Device;
use crate::packets::RegisterDevicePacket;

verus! {

/// How many device ids the first stage draws before it gives up.
pub const MAX_ID_ATTEMPTS: u32 = 16;

/// Why a registration failed.
#[derive(Debug, Clone, PartialEq, Eq)]
pub enum DeviceRegisterError {
    /// The first stage named a user that does not exist.
    UserDoesNotExist,
    /// The persistence collaborator failed; the text describes its error.
    DatabaseError(String),
    /// A device presented an id that is already registered, or the
    /// collaborator answered something the handshake did not ask for.
    OtherError,
    /// Every drawn device id was already taken.
    IdSpaceExhausted,
}

impl DeviceRegisterError {
    /// Every registration error ends the connection: an unknown account or a
    /// failing store is not retryable on it, a refused identity is not
    /// either, and an exhausted id space needs an operator.
    pub open spec fn spec_class(&self) -> PacketHandlerError {
        PacketHandlerError::Ending
    }

    /// Whether the connection closes after this error.
    pub fn class(&self) -> (r: PacketHandlerError)
        ensures
            r == self.spec_class(),
    {
        match self {
            DeviceRegisterError::UserDoesNotExist => PacketHandlerError::Ending,
            DeviceRegisterError::DatabaseError(_) => PacketHandlerError::Ending,
            DeviceRegisterError::OtherError => PacketHandlerError::Ending,
            DeviceRegisterError::IdSpaceExhausted => PacketHandlerError::Ending,
        }
    }
}

/// The collaborator's answer to the last request.
#[derive(Debug, Clone, PartialEq, Eq)]
pub enum PersistenceEvent {
    /// The looked-up row exists.
    Found,
    /// The looked-up row does not exist.
    NotFound,
    /// The row was inserted.
    Inserted,
    /// The insert broke the uniqueness of the device id.
    UniqueViolation,
    /// Any other failure, described.
    Failed(String),
}

/// What the handshake asks for next.
#[derive(Debug, PartialEq, Eq)]
pub enum RegistrationAction {
    /// Look up the user with this id.
    FindUser([u8; 16]),
    /// Look up the device with this id.
    FindDevice([u8; 16]),
    /// Insert this device row.
    InsertDevice(Device),
    /// The handshake is over. `Ok(Some(id))`: a device was created under
    /// `id`, which the camera must be told; `Ok(None)`: the presented id is
    /// unknown and the camera may proceed as a new device.
    Finish(Result<Option<[u8; 16]>, DeviceRegisterError>),
}

/// Where the handshake stands.
#[derive(Debug, Clone, Copy, PartialEq, Eq)]
pub enum RegistrationStage {
    AwaitingUser,
    AwaitingDevice,
    AwaitingInsert(Device),
    Finished,
}

/// One registration handshake.
#[derive(Debug, Clone, Copy, PartialEq, Eq)]
pub struct Registration {
    pub request: RegisterDevicePacket,
    pub stage: RegistrationStage,
    /// Device ids drawn so far.
    pub attempts: u32,
}

/// The all-zero id, which asks for a first-stage registration.
pub open spec fn is_zero_id(id: [u8; 16]) -> bool {
    forall|i: int| 0 <= i < 16 ==> id[i] == 0
}

/// The device row that the first stage inserts for `request` under `id`.
pub open spec fn first_stage_device(request: RegisterDevicePacket, id: [u8; 16]) -> Device {
    Device {
        device_id: id,
        mac_address: request.mac_address,
        auth_key: request.auth_key,
        registration_first_stage: true,
        user_id: request.user_id,
    }
}

/// Whether `id` is all zero.
pub fn id_is_zero(id: &[u8; 16]) -> (r: bool)
    ensures
        r == is_zero_id(*id),
{
    let mut i: usize = 0;
    while i < 16
        invariant
            0 <= i <= 16,
            forall|j: int| 0 <= j < i ==> id[j] == 0,
        decreases 16 - i,
    {
        if id[i] != 0 {
            return false;
        }
        i = i + 1;
    }
    true
}

/// Relies on rand's `thread_rng().fill`: sixteen bytes from the thread-local
/// generator. Nothing is promised of their value. It panics only where the
/// operating system gives the generator no entropy to seed from.
#[verifier::external_body]
pub(crate) fn random_id() -> (r: [u8; 16]) {
    let mut id = [0u8; 16];
    rand::Rng::fill(&mut rand::thread_rng(), &mut id);
    id
}

impl Registration {
    /// The handshake after `request` arrived, and its first request.
    pub open spec fn spec_start(request: RegisterDevicePacket) -> (Registration, RegistrationAction) {
        if is_zero_id(request.camera_id) {
            (
                Registration { request, stage: RegistrationStage::AwaitingUser, attempts: 0 },
                RegistrationAction::FindUser(request.user_id),
            )
        } else {
            (
                Registration { request, stage: RegistrationStage::AwaitingDevice, attempts: 0 },
                RegistrationAction::FindDevice(request.camera_id),
            )
        }
    }

    /// The handshake ended with `outcome`.
    pub open spec fn spec_finish(self, outcome: Result<Option<[u8; 16]>, DeviceRegisterError>) -> (
        Registration,
        RegistrationAction,
    ) {
        (
            Registration { request: self.request, stage: RegistrationStage::Finished, attempts: self.attempts },
            RegistrationAction::Finish(outcome),
        )
    }

    /// An insert of `request` under `id`, as attempt number `attempts`.
    pub open spec fn spec_insert(self, id: [u8; 16], attempts: u32) -> (Registration, RegistrationAction) {
        let device = first_stage_device(self.request, id);
        (
            Registration {
                request: self.request,
                stage: RegistrationStage::AwaitingInsert(device),
                attempts,
            },
            RegistrationAction::InsertDevice(device),
        )
    }

    /// The handshake after the collaborator answered `event`, and what it asks
    /// for next; `fresh` is the device id to use if one is drawn.
    pub open spec fn spec_advance(self, event: PersistenceEvent, fresh: [u8; 16]) -> (
        Registration,
        RegistrationAction,
    ) {
        match self.stage {
            RegistrationStage::AwaitingUser => match event {
                PersistenceEvent::Found => self.spec_insert(fresh, 1),
                PersistenceEvent::NotFound => self.spec_finish(
                    Err(DeviceRegisterError::UserDoesNotExist),
                ),
                PersistenceEvent::Failed(m) => self.spec_finish(
                    Err(DeviceRegisterError::DatabaseError(m)),
                ),
                _ => self.spec_finish(Err(DeviceRegisterError::OtherError)),
            },
            RegistrationStage::AwaitingDevice => match event {
                PersistenceEvent::Found => self.spec_finish(Err(DeviceRegisterError::OtherError)),
                PersistenceEvent::NotFound => self.spec_finish(Ok(None)),
                PersistenceEvent::Failed(m) => self.spec_finish(
                    Err(DeviceRegisterError::DatabaseError(m)),
                ),
                _ => self.spec_finish(Err(DeviceRegisterError::OtherError)),
            },
            RegistrationStage::AwaitingInsert(device) => match event {
                PersistenceEvent::Inserted => self.spec_finish(Ok(Some(device.device_id))),
                PersistenceEvent::UniqueViolation => if self.attempts < MAX_ID_ATTEMPTS {
                    self.spec_insert(fresh, (self.attempts + 1) as u32)
                } else {
                    self.spec_finish(Err(DeviceRegisterError::IdSpaceExhausted))
                },
                PersistenceEvent::Failed(m) => self.spec_finish(
                    Err(DeviceRegisterError::DatabaseError(m)),
                ),
                _ => self.spec_finish(Err(DeviceRegisterError::OtherError)),
            },
            RegistrationStage::Finished => self.spec_finish(Err(DeviceRegisterError::OtherError)),
        }
    }

    /// Starts the handshake for `request`: a first stage if its camera id is
    /// all zero, else a second stage.
    pub fn start(request: RegisterDevicePacket) -> (r: (Registration, RegistrationAction))
        ensures
            r == Self::spec_start(request),
    {
        if id_is_zero(&request.camera_id) {
            (
                Registration { request, stage: RegistrationStage::AwaitingUser, attempts: 0 },
                RegistrationAction::FindUser(request.user_id),
            )
        } else {
            (
                Registration { request, stage: RegistrationStage::AwaitingDevice, attempts: 0 },
                RegistrationAction::FindDevice(request.camera_id),
            )
        }
    }

    fn finish(&mut self, outcome: Result<Option<[u8; 16]>, DeviceRegisterError>) -> (r:
        RegistrationAction)
        ensures
            (*final(self), r) == old(self).spec_finish(outcome),
    {
        self.stage = RegistrationStage::Finished;
        RegistrationAction::Finish(outcome)
    }

    fn insert(&mut self, id: [u8; 16], attempts: u32) -> (r: RegistrationAction)
        ensures
            (*final(self), r) == old(self).spec_insert(id, attempts),
    {
        let device = Device {
            device_id: id,
            mac_address: self.request.mac_address,
            auth_key: self.request.auth_key,
            registration_first_stage: true,
            user_id: self.request.user_id,
        };
        self.stage = RegistrationStage::AwaitingInsert(device);
        self.attempts = attempts;
        RegistrationAction::InsertDevice(device)
    }

    /// Hands the collaborator's answer `event` to the handshake; `fresh` is
    /// the device id to insert under if the answer calls for a new one.
    pub fn advance(&mut self, event: PersistenceEvent, fresh: [u8; 16]) -> (r: RegistrationAction)
        ensures
            (*final(self), r) == old(self).spec_advance(event, fresh),
    {
        match self.stage {
            RegistrationStage::AwaitingUser => match event {
                PersistenceEvent::Found => self.insert(fresh, 1),
                PersistenceEvent::NotFound => self.finish(
                    Err(DeviceRegisterError::UserDoesNotExist),
                ),
                PersistenceEvent::Failed(m) => self.finish(
                    Err(DeviceRegisterError::DatabaseError(m)),
                ),
                _ => self.finish(Err(DeviceRegisterError::OtherError)),
            },
            RegistrationStage::AwaitingDevice => match event {
                PersistenceEvent::Found => self.finish(Err(DeviceRegisterError::OtherError)),
                PersistenceEvent::NotFound => self.finish(Ok(None)),
                PersistenceEvent::Failed(m) => self.finish(
                    Err(DeviceRegisterError::DatabaseError(m)),
                ),
                _ => self.finish(Err(DeviceRegisterError::OtherError)),
            },
            RegistrationStage::AwaitingInsert(device) => match event {
                PersistenceEvent::Inserted => self.finish(Ok(Some(device.device_id))),
                PersistenceEvent::UniqueViolation => if self.attempts < MAX_ID_ATTEMPTS {
                    let next = self.attempts + 1;
                    self.insert(fresh, next)
                } else {
                    self.finish(Err(DeviceRegisterError::IdSpaceExhausted))
                },
                PersistenceEvent::Failed(m) => self.finish(
                    Err(DeviceRegisterError::DatabaseError(m)),
                ),
                _ => self.finish(Err(DeviceRegisterError::OtherError)),
            },
            RegistrationStage::Finished => self.finish(Err(DeviceRegisterError::OtherError)),
        }
    }

    /// Hands the collaborator's answer `event` to the handshake, drawing a
    /// random device id for the case that the answer calls for one.
    pub fn step(&mut self, event: PersistenceEvent) -> (r: RegistrationAction)
        ensures
            exists|fresh: [u8; 16]| (*final(self), r) == old(self).spec_advance(event, fresh),
    {
        let fresh = random_id();
        let r = self.advance(event, fresh);
        assert((*self, r) == old(self).spec_advance(event, fresh));
        r
    }
}

/// A finished handshake stays finished and never asks for an insert again.
pub proof fn lemma_finished_is_final(r: Registration, event: PersistenceEvent, fresh: [u8; 16])
    requires
        r.stage == RegistrationStage::Finished,
    ensures
        r.spec_advance(event, fresh).0.stage == RegistrationStage::Finished,
        !(r.spec_advance(event, fresh).1 is InsertDevice),
{
}

/// A first stage whose user is unknown ends with `UserDoesNotExist`, and
/// neither then nor later asks for a device insert.
pub proof fn lemma_unknown_user_rejected(
    request: RegisterDevicePacket,
    fresh: [u8; 16],
    later: PersistenceEvent,
    later_fresh: [u8; 16],
)
    requires
        is_zero_id(request.camera_id),
    ensures
        Registration::spec_start(request).1 == RegistrationAction::FindUser(request.user_id),
        Registration::spec_start(request).0.spec_advance(PersistenceEvent::NotFound, fresh).1
            == RegistrationAction::Finish(Err(DeviceRegisterError::UserDoesNotExist)),
        !(Registration::spec_start(request).0.spec_advance(
            PersistenceEvent::NotFound,
            fresh,
        ).0.spec_advance(later, later_fresh).1 is InsertDevice),
{
}

/// When an insert hits the uniqueness of its device id, the first stage
/// inserts the same row again under the freshly drawn id, until the attempts
/// run out; it reports a device id only once the collaborator has inserted
/// the row under exactly that id.
pub proof fn lemma_duplicate_id_regenerated(r: Registration, fresh: [u8; 16])
    requires
        r.stage is AwaitingInsert,
    ensures
        r.attempts < MAX_ID_ATTEMPTS ==> r.spec_advance(PersistenceEvent::UniqueViolation, fresh)
            == r.spec_insert(fresh, (r.attempts + 1) as u32),
        r.attempts < MAX_ID_ATTEMPTS ==> r.spec_advance(PersistenceEvent::UniqueViolation, fresh).1
            == RegistrationAction::InsertDevice(first_stage_device(r.request, fresh)),
        r.attempts >= MAX_ID_ATTEMPTS ==> r.spec_advance(PersistenceEvent::UniqueViolation, fresh).1
            == RegistrationAction::Finish(Err(DeviceRegisterError::IdSpaceExhausted)),
        forall|event: PersistenceEvent|
            #![trigger r.spec_advance(event, fresh)]
            r.spec_advance(event, fresh).1 matches RegistrationAction::Finish(Ok(Some(id))) ==> event
                == PersistenceEvent::Inserted && id == r.stage->AwaitingInsert_0.device_id,
{
}

/// A second stage that presents a registered device id is refused, and
/// nothing is inserted or changed for it.
pub proof fn lemma_existing_device_rejected(
    request: RegisterDevicePacket,
    fresh: [u8; 16],
    later: PersistenceEvent,
    later_fresh: [u8; 16],
)
    requires
        !is_zero_id(request.camera_id),
    ensures
        Registration::spec_start(request).1 == RegistrationAction::FindDevice(request.camera_id),
        Registration::spec_start(request).0.spec_advance(PersistenceEvent::Found, fresh).1
            == RegistrationAction::Finish(Err(DeviceRegisterError::OtherError)),
        !(Registration::spec_start(request).0.spec_advance(
            PersistenceEvent::Found,
            fresh,
        ).0.spec_advance(later, later_fresh).1 is InsertDevice),
{
}

} // verus!
