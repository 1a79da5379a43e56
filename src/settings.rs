//! Program-wide client settings: the manager and the local chain id, with the
//! rule that decides who may change them.
use vstd::prelude::*;
use crate::codec::zeros;
use crate::ledger::ClientError;
use crate::tables::same_bytes;

verus! {

/// The settings record of a client program.
#[derive(Debug, Clone, Copy, Default)]
pub struct ClientProgramSettings {
    pub is_initialized: bool,
    pub manager: [u8; 32],
    pub bump: u8,
    pub local_chain_id: u64,
}

/// Emitted when the settings are created.
#[derive(Debug, Clone, Copy)]
pub struct CreateClientSettingsEvent {
    pub address: [u8; 32],
    pub manager: [u8; 32],
    pub local_chain_id: u64,
}

/// Emitted when the manager changes.
#[derive(Debug, Clone, Copy)]
pub struct UpdateClientSettingsEvent {
    pub address: [u8; 32],
    pub manager: [u8; 32],
}

/// Relies on anchor_lang's `system_program::ID`, the system program's id
/// `11111111111111111111111111111111` in base58, which is 32 zero bytes.
#[verifier::external_body]
fn system_program_id() -> (r: [u8; 32])
    ensures
        r@ == zeros(32),
{
    anchor_lang::system_program::ID.to_bytes()
}

/// Whether `authority` may change the settings: it is the program's upgrade
/// authority, the program has the system program as upgrade authority, or it
/// is the current manager.
pub open spec fn may_update(
    settings: ClientProgramSettings,
    authority: Seq<u8>,
    upgrade_authority: Option<Seq<u8>>,
) -> bool {
    upgrade_authority == Some(authority) || upgrade_authority == Some(zeros(32)) || authority
        == settings.manager@
}

impl ClientProgramSettings {
    /// Creates the settings of a client program, stored at `address`.
    pub fn initialize(address: [u8; 32], manager: [u8; 32], local_chain_id: u64, bump: u8) -> (r: (
        ClientProgramSettings,
        CreateClientSettingsEvent,
    ))
        ensures
            r.0.is_initialized,
            r.0.manager == manager,
            r.0.local_chain_id == local_chain_id,
            r.0.bump == bump,
            r.1.address == address && r.1.manager == manager && r.1.local_chain_id == local_chain_id,
    {
        let settings = ClientProgramSettings { is_initialized: true, manager, bump, local_chain_id };
        (settings, CreateClientSettingsEvent { address, manager, local_chain_id })
    }

    /// Hands the settings to `manager`, where `authority` may change them
    /// (see [`may_update`]); `upgrade_authority` is the program's upgrade
    /// authority, if it has one.
    pub fn update_manager(
        &mut self,
        address: [u8; 32],
        authority: [u8; 32],
        upgrade_authority: Option<[u8; 32]>,
        manager: [u8; 32],
    ) -> (r: Result<UpdateClientSettingsEvent, ClientError>)
        ensures
            ({
                let ua = match upgrade_authority {
                    Some(a) => Some(a@),
                    None => None,
                };
                if may_update(*old(self), authority@, ua) {
                    r matches Ok(ev) && ev.address == address && ev.manager == manager
                        && *final(self) == (ClientProgramSettings { manager, ..*old(self) })
                } else {
                    r matches Err(e) && e == ClientError::UnauthorizedSigner && *final(self) == *old(self)
                }
            }),
    {
        let allowed = match upgrade_authority {
            Some(a) => same_bytes(&a, &authority) || same_bytes(&a, &system_program_id()),
            None => false,
        } || same_bytes(&authority, &self.manager);
        if !allowed {
            return Err(ClientError::UnauthorizedSigner);
        }
        self.manager = manager;
        Ok(UpdateClientSettingsEvent { address, manager })
    }
}

} // verus!
