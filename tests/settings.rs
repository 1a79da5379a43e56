use asterizm_client::ledger::ClientError;
use asterizm_client::settings::ClientProgramSettings;

const ADDRESS: [u8; 32] = [50; 32];
const MANAGER: [u8; 32] = [51; 32];
const OTHER: [u8; 32] = [52; 32];

#[test]
fn initialize_sets_fields() {
    let (s, ev) = ClientProgramSettings::initialize(ADDRESS, MANAGER, 7, 254);
    assert!(s.is_initialized);
    assert_eq!(s.manager, MANAGER);
    assert_eq!(s.local_chain_id, 7);
    assert_eq!(s.bump, 254);
    assert_eq!(ev.address, ADDRESS);
    assert_eq!(ev.manager, MANAGER);
    assert_eq!(ev.local_chain_id, 7);
}

#[test]
fn manager_can_hand_over() {
    let (mut s, _) = ClientProgramSettings::initialize(ADDRESS, MANAGER, 7, 1);
    let ev = s.update_manager(ADDRESS, MANAGER, None, OTHER).unwrap();
    assert_eq!(ev.manager, OTHER);
    assert_eq!(ev.address, ADDRESS);
    assert_eq!(s.manager, OTHER);
    assert_eq!(s.local_chain_id, 7);
}

#[test]
fn stranger_cannot_update() {
    let (mut s, _) = ClientProgramSettings::initialize(ADDRESS, MANAGER, 7, 1);
    let r = s.update_manager(ADDRESS, OTHER, Some([60; 32]), OTHER);
    assert!(matches!(r, Err(ClientError::UnauthorizedSigner)));
    assert_eq!(s.manager, MANAGER);
}

#[test]
fn upgrade_authority_can_update() {
    let (mut s, _) = ClientProgramSettings::initialize(ADDRESS, MANAGER, 7, 1);
    assert!(s.update_manager(ADDRESS, OTHER, Some(OTHER), OTHER).is_ok());
    assert_eq!(s.manager, OTHER);
}

#[test]
fn system_program_upgrade_authority_lets_anyone_update() {
    let (mut s, _) = ClientProgramSettings::initialize(ADDRESS, MANAGER, 7, 1);
    assert!(s.update_manager(ADDRESS, OTHER, Some([0; 32]), OTHER).is_ok());
    assert_eq!(s.manager, OTHER);
    let r = s.update_manager(ADDRESS, MANAGER, Some([1; 32]), MANAGER);
    assert!(matches!(r, Err(ClientError::UnauthorizedSigner)));
}
