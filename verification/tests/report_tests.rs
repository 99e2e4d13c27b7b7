use ord_core::Chain;
use ord_core::report::InscriptionId;
use ord_core::report::OutPoint;
use ord_core::report::ReportError;
use ord_core::report::ReportEvent;
use ord_core::report::ReportState;
use ord_core::report::SatPoint;
use ord_core::report::Txid;
use ord_core::report::advance;
use ord_core::report::contains_outpoint;
use ord_core::report::explorer_url;
use ord_core::report::inscription_id_string;
use ord_core::report::outpoint_eq;
use ord_core::report::run;
use ord_core::report::satpoint_string;
use ord_core::report::txid_eq;

fn txid(tag: u8) -> Txid {
    let mut bytes = [0u8; 32];
    bytes[0] = tag;
    Txid { bytes }
}

fn satpoint(tag: u8, vout: u32, offset: u64) -> SatPoint {
    SatPoint { outpoint: OutPoint { txid: txid(tag), vout }, offset }
}

// The hex text of `txid(tag)`: 31 zero bytes, then the tag byte, read
// back to front.
fn txid_hex(tag: u8) -> String {
    format!("{}{:02x}", "00".repeat(31), tag)
}

#[test]
fn txid_equality_is_bytewise() {
    assert!(txid_eq(&txid(1), &txid(1)));
    assert!(!txid_eq(&txid(1), &txid(2)));
}

#[test]
fn outpoint_equality_needs_both_fields() {
    let a = OutPoint { txid: txid(1), vout: 0 };
    assert!(outpoint_eq(&a, &OutPoint { txid: txid(1), vout: 0 }));
    assert!(!outpoint_eq(&a, &OutPoint { txid: txid(1), vout: 1 }));
    assert!(!outpoint_eq(&a, &OutPoint { txid: txid(2), vout: 0 }));
}

#[test]
fn contains_outpoint_searches_the_whole_set() {
    let utxos = vec![
        OutPoint { txid: txid(1), vout: 0 },
        OutPoint { txid: txid(2), vout: 7 },
    ];
    assert!(contains_outpoint(&utxos, &OutPoint { txid: txid(2), vout: 7 }));
    assert!(!contains_outpoint(&utxos, &OutPoint { txid: txid(2), vout: 8 }));
    assert!(!contains_outpoint(&Vec::new(), &OutPoint { txid: txid(1), vout: 0 }));
}

#[test]
fn inscription_id_canonical_text() {
    let id = InscriptionId { txid: txid(0xab), index: 5 };
    assert_eq!(inscription_id_string(&id), format!("{}i5", txid_hex(0xab)));
    let zero = InscriptionId { txid: Txid { bytes: [0u8; 32] }, index: 0 };
    assert_eq!(inscription_id_string(&zero), format!("{}i0", "00".repeat(32)));
}

#[test]
fn inscription_id_text_reverses_byte_order() {
    let mut bytes = [0u8; 32];
    bytes[31] = 0x12;
    bytes[0] = 0x34;
    let id = InscriptionId { txid: Txid { bytes }, index: 107 };
    assert_eq!(
        inscription_id_string(&id),
        format!("12{}34i107", "00".repeat(30))
    );
}

#[test]
fn satpoint_canonical_text() {
    let sp = satpoint(0xab, 3, 1234);
    assert_eq!(satpoint_string(&sp), format!("{}:3:1234", txid_hex(0xab)));
}

#[test]
fn explorer_url_per_network() {
    let id = InscriptionId { txid: txid(0xcd), index: 0 };
    let text = format!("{}i0", txid_hex(0xcd));
    assert_eq!(
        explorer_url(Chain::Mainnet, &id),
        format!("http://localhost/inscription/{text}")
    );
    assert_eq!(
        explorer_url(Chain::Testnet, &id),
        format!("http://localhost/inscription/{text}")
    );
    assert_eq!(
        explorer_url(Chain::Regtest, &id),
        format!("http://localhost/inscription/{text}")
    );
    assert_eq!(
        explorer_url(Chain::Signet, &id),
        format!("https://localhost/inscription/{text}")
    );
}

#[test]
fn join_keeps_only_unspent_locations() {
    let a = satpoint(1, 0, 0);
    let b = satpoint(2, 0, 0);
    let i1 = InscriptionId { txid: txid(10), index: 0 };
    let i2 = InscriptionId { txid: txid(20), index: 0 };
    let inscriptions = vec![(a, i1), (b, i2)];
    let unspent = vec![a.outpoint];

    let rows = run(Chain::Mainnet, &inscriptions, &unspent);

    assert_eq!(rows.len(), 1);
    assert!(txid_eq(&rows[0].inscription.txid, &i1.txid));
    assert_eq!(rows[0].inscription.index, i1.index);
    assert!(outpoint_eq(&rows[0].location.outpoint, &a.outpoint));
    assert_eq!(rows[0].location.offset, a.offset);
}

#[test]
fn join_preserves_input_order_and_duplicates() {
    let a = satpoint(1, 0, 0);
    let b = satpoint(2, 1, 9);
    let i1 = InscriptionId { txid: txid(10), index: 0 };
    let i2 = InscriptionId { txid: txid(20), index: 1 };
    let inscriptions = vec![(b, i2), (a, i1), (b, i2)];
    let unspent = vec![a.outpoint, b.outpoint];

    let rows = run(Chain::Mainnet, &inscriptions, &unspent);

    assert_eq!(rows.len(), 3);
    assert_eq!(rows[0].inscription.index, 1);
    assert_eq!(rows[1].inscription.index, 0);
    assert_eq!(rows[2].inscription.index, 1);
}

#[test]
fn join_of_empty_inputs_is_empty() {
    let a = satpoint(1, 0, 0);
    let i1 = InscriptionId { txid: txid(10), index: 0 };
    assert!(run(Chain::Mainnet, &Vec::new(), &vec![a.outpoint]).is_empty());
    assert!(run(Chain::Mainnet, &vec![(a, i1)], &Vec::new()).is_empty());
    assert!(run(Chain::Mainnet, &Vec::new(), &Vec::new()).is_empty());
}

#[test]
fn explorer_field_is_base_url_then_canonical_text() {
    let a = satpoint(0xab, 0, 0);
    let id = InscriptionId { txid: txid(0xee), index: 2 };
    let rows = run(Chain::Mainnet, &vec![(a, id)], &vec![a.outpoint]);
    assert_eq!(rows.len(), 1);
    assert_eq!(
        rows[0].explorer,
        format!("http://localhost/inscription/{}i2", txid_hex(0xee))
    );
}

#[test]
fn sync_failure_fails_the_report_unchanged() {
    let next = advance(
        Chain::Mainnet,
        ReportState::SyncingIndex,
        ReportEvent::IndexSynced(Err(String::from("index unreachable"))),
    );
    match next {
        ReportState::Failed { error: ReportError::IndexSync(m) } => {
            assert_eq!(m, "index unreachable");
        }
        _ => panic!("a failed synchronization must fail the report"),
    }
}

#[test]
fn failed_state_is_terminal() {
    let failed = ReportState::Failed { error: ReportError::IndexSync(String::from("down")) };
    let next = advance(
        Chain::Mainnet,
        failed,
        ReportEvent::InscriptionsFetched(Ok(Vec::new())),
    );
    assert!(matches!(next, ReportState::Failed { error: ReportError::IndexSync(_) }));
}

#[test]
fn session_walks_to_a_complete_report() {
    let chain = Chain::Mainnet;
    let a = satpoint(1, 0, 0);
    let i1 = InscriptionId { txid: txid(10), index: 0 };

    let mut state = ReportState::SyncingIndex;
    state = advance(chain, state, ReportEvent::IndexSynced(Ok(())));
    assert!(matches!(state, ReportState::FetchingInscriptions));
    state = advance(chain, state, ReportEvent::InscriptionsFetched(Ok(vec![(a, i1)])));
    assert!(matches!(state, ReportState::LoadingWallet { .. }));
    state = advance(chain, state, ReportEvent::WalletLoaded(Ok(())));
    assert!(matches!(state, ReportState::FetchingUnspent { .. }));
    state = advance(chain, state, ReportEvent::UnspentFetched(Ok(vec![a.outpoint])));
    match state {
        ReportState::Complete { rows } => {
            assert_eq!(rows.len(), 1);
            assert_eq!(rows[0].location.offset, 0);
        }
        _ => panic!("the session must complete"),
    }
}

#[test]
fn inscription_fetch_failure_names_its_step() {
    let next = advance(
        Chain::Mainnet,
        ReportState::FetchingInscriptions,
        ReportEvent::InscriptionsFetched(Err(String::from("index closed"))),
    );
    match next {
        ReportState::Failed { error: ReportError::InscriptionFetch(m) } => {
            assert_eq!(m, "index closed");
        }
        _ => panic!("a failed inscription fetch must fail the report"),
    }
}

#[test]
fn wallet_and_utxo_failures_name_their_step() {
    let chain = Chain::Mainnet;
    let loading = ReportState::LoadingWallet { inscriptions: Vec::new() };
    let next = advance(chain, loading, ReportEvent::WalletLoaded(Err(String::from("no wallet"))));
    assert!(matches!(next, ReportState::Failed { error: ReportError::WalletLoad(_) }));

    let fetching = ReportState::FetchingUnspent { inscriptions: Vec::new() };
    let next = advance(chain, fetching, ReportEvent::UnspentFetched(Err(String::from("rpc"))));
    assert!(matches!(next, ReportState::Failed { error: ReportError::UtxoFetch(_) }));
}

#[test]
fn mismatched_event_leaves_state_unchanged() {
    let next = advance(
        Chain::Mainnet,
        ReportState::SyncingIndex,
        ReportEvent::UnspentFetched(Ok(Vec::new())),
    );
    assert!(matches!(next, ReportState::SyncingIndex));
}
