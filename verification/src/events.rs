//! Lifecycle event payloads. Every event carries a versioned metadata block
//! naming the units of its amount and timestamp fields.

use vstd::prelude::*;

use crate::address::Address;

verus! {

/// Current version for every lifecycle event payload.
pub const EVENT_SCHEMA_VERSION: u32 = 1;

/// Version and unit labels shared by every payload.
#[derive(Clone, Copy, Debug, PartialEq, Eq)]
pub struct EventMetadata {
    pub schema_version: u32,
    pub amount_unit: &'static str,
    pub timestamp_unit: &'static str,
}

#[derive(Clone, Copy, Debug, PartialEq, Eq)]
pub struct InitEvent {
    pub metadata: EventMetadata,
    pub admin: Address,
    pub token: Address,
}

#[derive(Clone, Copy, Debug, PartialEq, Eq)]
pub struct CreatedEvent {
    pub metadata: EventMetadata,
    pub transfer_id: u64,
    pub from: Address,
    pub recipient: Address,
    pub amount: i128,
    pub expiry: u64,
}

#[derive(Clone, Copy, Debug, PartialEq, Eq)]
pub struct ClaimedEvent {
    pub metadata: EventMetadata,
    pub transfer_id: u64,
    pub recipient: Address,
    pub amount: i128,
}

#[derive(Clone, Copy, Debug, PartialEq, Eq)]
pub struct CancelledEvent {
    pub metadata: EventMetadata,
    pub transfer_id: u64,
    pub from: Address,
    pub amount: i128,
}

#[derive(Clone, Copy, Debug, PartialEq, Eq)]
pub struct ActorEvent {
    pub metadata: EventMetadata,
    pub actor: Address,
}

#[derive(Clone, Copy, Debug, PartialEq, Eq)]
pub struct AdminTransferEvent {
    pub metadata: EventMetadata,
    pub old_admin: Address,
    pub new_admin: Address,
}

/// Payload recording a change of the active wasm artifact.
#[derive(Clone, Copy, Debug, PartialEq, Eq)]
pub struct UpgradeEvent {
    pub metadata: EventMetadata,
    pub admin: Address,
    pub version: u32,
    pub artifact: [u8; 32],
}

/// Payload recording a versioned change of the caller registry.
#[derive(Clone, Copy, Debug, PartialEq, Eq)]
pub struct CallerRegistryEvent {
    pub metadata: EventMetadata,
    pub version: u64,
    pub admin: Address,
    pub caller: Address,
    pub allowed: bool,
}

/// The payload of a published event.
#[derive(Clone, Copy, Debug, PartialEq, Eq)]
pub enum EventPayload {
    Init(InitEvent),
    Created(CreatedEvent),
    Claimed(ClaimedEvent),
    Cancelled(CancelledEvent),
    Actor(ActorEvent),
    AdminTransfer(AdminTransferEvent),
    Upgrade(UpgradeEvent),
    CallerRegistry(CallerRegistryEvent),
}

/// Event topics: a symbol naming the event, followed by the transfer id for
/// per-transfer events.
#[derive(Clone, Copy, Debug, PartialEq, Eq)]
pub struct EventTopics {
    pub name: &'static str,
    pub transfer_id: Option<u64>,
}

impl EventTopics {
    /// Number of topic values.
    pub fn len(&self) -> (r: u32)
        ensures
            r == (if self.transfer_id is Some {
                2u32
            } else {
                1u32
            }),
    {
        match self.transfer_id {
            Some(_) => 2,
            None => 1,
        }
    }
}

/// An event to publish: its topics and its payload.
#[derive(Clone, Copy, Debug, PartialEq, Eq)]
pub struct ContractEvent {
    pub topics: EventTopics,
    pub payload: EventPayload,
}

#[verifier::allow_in_spec]
pub fn metadata(amount_unit: &'static str, timestamp_unit: &'static str) -> EventMetadata
    returns
        (EventMetadata { schema_version: EVENT_SCHEMA_VERSION, amount_unit, timestamp_unit }),
{
    EventMetadata { schema_version: EVENT_SCHEMA_VERSION, amount_unit, timestamp_unit }
}

/// The event recording contract initialization.
#[verifier::allow_in_spec]
pub fn init(admin: Address, token: Address) -> ContractEvent
    returns
        (ContractEvent {
            topics: EventTopics { name: "init", transfer_id: None },
            payload: EventPayload::Init(
                InitEvent { metadata: metadata("", "ledger_seconds"), admin, token },
            ),
        }),
{
    ContractEvent {
        topics: EventTopics { name: "init", transfer_id: None },
        payload: EventPayload::Init(
            InitEvent { metadata: metadata("", "ledger_seconds"), admin, token },
        ),
    }
}

/// The event recording the creation of a new transfer.
#[verifier::allow_in_spec]
pub fn created(id: u64, from: Address, recipient: Address, amount: i128, expiry: u64) -> ContractEvent
    returns
        (ContractEvent {
            topics: EventTopics { name: "created", transfer_id: Some(id) },
            payload: EventPayload::Created(
                CreatedEvent {
                    metadata: metadata("token_base_units", "ledger_seconds"),
                    transfer_id: id,
                    from,
                    recipient,
                    amount,
                    expiry,
                },
            ),
        }),
{
    ContractEvent {
        topics: EventTopics { name: "created", transfer_id: Some(id) },
        payload: EventPayload::Created(
            CreatedEvent {
                metadata: metadata("token_base_units", "ledger_seconds"),
                transfer_id: id,
                from,
                recipient,
                amount,
                expiry,
            },
        ),
    }
}

/// The event recording a successful claim by the recipient.
#[verifier::allow_in_spec]
pub fn claimed(id: u64, recipient: Address, amount: i128) -> ContractEvent
    returns
        (ContractEvent {
            topics: EventTopics { name: "claimed", transfer_id: Some(id) },
            payload: EventPayload::Claimed(
                ClaimedEvent {
                    metadata: metadata("token_base_units", ""),
                    transfer_id: id,
                    recipient,
                    amount,
                },
            ),
        }),
{
    ContractEvent {
        topics: EventTopics { name: "claimed", transfer_id: Some(id) },
        payload: EventPayload::Claimed(
            ClaimedEvent {
                metadata: metadata("token_base_units", ""),
                transfer_id: id,
                recipient,
                amount,
            },
        ),
    }
}

/// The event recording a cancellation and refund to the sender.
#[verifier::allow_in_spec]
pub fn cancelled(id: u64, from: Address, amount: i128) -> ContractEvent
    returns
        (ContractEvent {
            topics: EventTopics { name: "cancelled", transfer_id: Some(id) },
            payload: EventPayload::Cancelled(
                CancelledEvent {
                    metadata: metadata("token_base_units", ""),
                    transfer_id: id,
                    from,
                    amount,
                },
            ),
        }),
{
    ContractEvent {
        topics: EventTopics { name: "cancelled", transfer_id: Some(id) },
        payload: EventPayload::Cancelled(
            CancelledEvent {
                metadata: metadata("token_base_units", ""),
                transfer_id: id,
                from,
                amount,
            },
        ),
    }
}

#[verifier::allow_in_spec]
pub fn actor_event(name: &'static str, actor: Address) -> ContractEvent
    returns
        (ContractEvent {
            topics: EventTopics { name, transfer_id: None },
            payload: EventPayload::Actor(
                ActorEvent { metadata: metadata("", "ledger_seconds"), actor },
            ),
        }),
{
    ContractEvent {
        topics: EventTopics { name, transfer_id: None },
        payload: EventPayload::Actor(ActorEvent { metadata: metadata("", "ledger_seconds"), actor }),
    }
}

/// The event recording that the admin paused the contract.
#[verifier::allow_in_spec]
pub fn paused(admin: Address) -> ContractEvent
    returns
        actor_event("paused", admin),
{
    actor_event("paused", admin)
}

/// The event recording that the admin unpaused the contract.
#[verifier::allow_in_spec]
pub fn unpaused(admin: Address) -> ContractEvent
    returns
        actor_event("unpaused", admin),
{
    actor_event("unpaused", admin)
}

/// The event recording that a caller was added to the allowlist.
#[verifier::allow_in_spec]
pub fn caller_added(caller: Address) -> ContractEvent
    returns
        actor_event("caller_added", caller),
{
    actor_event("caller_added", caller)
}

/// The event recording that a caller was removed from the allowlist.
#[verifier::allow_in_spec]
pub fn caller_removed(caller: Address) -> ContractEvent
    returns
        actor_event("caller_removed", caller),
{
    actor_event("caller_removed", caller)
}

#[verifier::allow_in_spec]
pub fn admin_transfer_event(name: &'static str, old_admin: Address, new_admin: Address) -> ContractEvent
    returns
        (ContractEvent {
            topics: EventTopics { name, transfer_id: None },
            payload: EventPayload::AdminTransfer(
                AdminTransferEvent { metadata: metadata("", "ledger_seconds"), old_admin, new_admin },
            ),
        }),
{
    ContractEvent {
        topics: EventTopics { name, transfer_id: None },
        payload: EventPayload::AdminTransfer(
            AdminTransferEvent { metadata: metadata("", "ledger_seconds"), old_admin, new_admin },
        ),
    }
}

/// The event recording that the current admin has nominated a new admin. The
/// transfer is complete only once the nominee accepts.
#[verifier::allow_in_spec]
pub fn admin_transfer_started(current_admin: Address, pending_admin: Address) -> ContractEvent
    returns
        admin_transfer_event("admin_transfer_started", current_admin, pending_admin),
{
    admin_transfer_event("admin_transfer_started", current_admin, pending_admin)
}

/// The event recording that the pending admin has accepted the role.
#[verifier::allow_in_spec]
pub fn admin_transfer_completed(old_admin: Address, new_admin: Address) -> ContractEvent
    returns
        admin_transfer_event("admin_transfer_completed", old_admin, new_admin),
{
    admin_transfer_event("admin_transfer_completed", old_admin, new_admin)
}

#[verifier::allow_in_spec]
pub fn upgrade_event(name: &'static str, admin: Address, version: u32, artifact: [u8; 32]) -> ContractEvent
    returns
        (ContractEvent {
            topics: EventTopics { name, transfer_id: None },
            payload: EventPayload::Upgrade(
                UpgradeEvent { metadata: metadata("", "ledger_seconds"), admin, version, artifact },
            ),
        }),
{
    ContractEvent {
        topics: EventTopics { name, transfer_id: None },
        payload: EventPayload::Upgrade(
            UpgradeEvent { metadata: metadata("", "ledger_seconds"), admin, version, artifact },
        ),
    }
}

/// The event recording the first registered wasm artifact (release 0).
#[verifier::allow_in_spec]
pub fn upgrade_baseline_set(admin: Address, artifact: [u8; 32]) -> ContractEvent
    returns
        upgrade_event("upgrade_baseline_set", admin, 0, artifact),
{
    upgrade_event("upgrade_baseline_set", admin, 0, artifact)
}

/// The event recording a replacement of the active wasm artifact.
#[verifier::allow_in_spec]
pub fn upgrade_applied(admin: Address, version: u32, artifact: [u8; 32]) -> ContractEvent
    returns
        upgrade_event("upgrade_applied", admin, version, artifact),
{
    upgrade_event("upgrade_applied", admin, version, artifact)
}

/// The event recording a versioned update of one caller's allowlist entry.
#[verifier::allow_in_spec]
pub fn caller_registry_changed(version: u64, admin: Address, caller: Address, allowed: bool) -> ContractEvent
    returns
        (ContractEvent {
            topics: EventTopics { name: "caller_registry_changed", transfer_id: None },
            payload: EventPayload::CallerRegistry(
                CallerRegistryEvent {
                    metadata: metadata("", "ledger_seconds"),
                    version,
                    admin,
                    caller,
                    allowed,
                },
            ),
        }),
{
    ContractEvent {
        topics: EventTopics { name: "caller_registry_changed", transfer_id: None },
        payload: EventPayload::CallerRegistry(
            CallerRegistryEvent {
                metadata: metadata("", "ledger_seconds"),
                version,
                admin,
                caller,
                allowed,
            },
        ),
    }
}

} // verus!
