use vstd::prelude::*;
use crate::chain::Chain;
use crate::text::dec_text;
use crate::text::push_dec_u64;
use crate::text::push_rev_hex32;
use crate::text::rev_hex_text;

verus! {

/// A transaction identifier: 32 bytes, displayed back to front in hex.
#[derive(Copy, Clone, Debug)]
pub struct Txid {
    pub bytes: [u8; 32],
}

/// A reference to a specific output of a specific prior transaction.
#[derive(Copy, Clone, Debug)]
pub struct OutPoint {
    pub txid: Txid,
    pub vout: u32,
}

/// A satoshi's location: an output reference plus an offset within that
/// output.
#[derive(Copy, Clone, Debug)]
pub struct SatPoint {
    pub outpoint: OutPoint,
    pub offset: u64,
}

/// A stable inscription identifier: the revealing transaction plus an
/// index within it.
#[derive(Copy, Clone, Debug)]
pub struct InscriptionId {
    pub txid: Txid,
    pub index: u32,
}

/// One line of the owned-inscription report: an inscription, the current
/// location of the satoshi carrying it, and a fully formed explorer URL.
#[derive(Debug)]
pub struct Output {
    pub inscription: InscriptionId,
    pub location: SatPoint,
    pub explorer: String,
}

/// Two transaction ids denote the same transaction.
pub open spec fn txid_eqv(a: Txid, b: Txid) -> bool {
    a.bytes@ == b.bytes@
}

/// Two output references denote the same output.
pub open spec fn outpoint_eqv(a: OutPoint, b: OutPoint) -> bool {
    txid_eqv(a.txid, b.txid) && a.vout == b.vout
}

/// Compares two transaction ids byte for byte.
pub fn txid_eq(a: &Txid, b: &Txid) -> (r: bool)
    ensures
        r == txid_eqv(*a, *b),
{
    let mut i: usize = 0;
    while i < 32
        invariant
            i <= 32,
            forall|j: int| 0 <= j < i ==> a.bytes@[j] == b.bytes@[j],
        decreases 32 - i,
    {
        if a.bytes[i] != b.bytes[i] {
            return false;
        }
        i += 1;
    }
    proof {
        assert(a.bytes@ =~= b.bytes@);
    }
    true
}

/// Compares two output references field for field.
pub fn outpoint_eq(a: &OutPoint, b: &OutPoint) -> (r: bool)
    ensures
        r == outpoint_eqv(*a, *b),
{
    a.vout == b.vout && txid_eq(&a.txid, &b.txid)
}

/// The unspent-output set holds this output reference.
pub open spec fn utxo_contains(utxos: Seq<OutPoint>, o: OutPoint) -> bool {
    exists|j: int| 0 <= j < utxos.len() && outpoint_eqv(utxos[j], o)
}

/// Membership test against the unspent-output set.
pub fn contains_outpoint(utxos: &Vec<OutPoint>, o: &OutPoint) -> (r: bool)
    ensures
        r == utxo_contains(utxos@, *o),
{
    let mut j: usize = 0;
    while j < utxos.len()
        invariant
            j <= utxos@.len(),
            forall|k: int| 0 <= k < j ==> !outpoint_eqv(utxos@[k], *o),
        decreases utxos@.len() - j,
    {
        if outpoint_eq(&utxos[j], o) {
            return true;
        }
        j += 1;
    }
    false
}

/// The canonical text of an inscription identifier: the transaction id's
/// hex text, the letter `i`, then the index in decimal.
pub open spec fn inscription_id_text(id: InscriptionId) -> Seq<char> {
    rev_hex_text(id.txid.bytes@) + seq!['i'] + dec_text(id.index as nat)
}

/// The canonical text of an output reference: `txid:vout`.
pub open spec fn outpoint_text(o: OutPoint) -> Seq<char> {
    rev_hex_text(o.txid.bytes@) + seq![':'] + dec_text(o.vout as nat)
}

/// The canonical text of a satoshi location: `txid:vout:offset`.
pub open spec fn satpoint_text(sp: SatPoint) -> Seq<char> {
    outpoint_text(sp.outpoint) + seq![':'] + dec_text(sp.offset as nat)
}

/// Renders an inscription identifier in its canonical text form.
pub fn inscription_id_string(id: &InscriptionId) -> (r: String)
    ensures
        r@ == inscription_id_text(*id),
{
    let mut s = String::new();
    push_rev_hex32(&mut s, &id.txid.bytes);
    s.append("i");
    push_dec_u64(&mut s, id.index as u64);
    proof {
        reveal_strlit("i");
        assert(s@ =~= inscription_id_text(*id));
    }
    s
}

/// Renders a satoshi location in its canonical text form.
pub fn satpoint_string(sp: &SatPoint) -> (r: String)
    ensures
        r@ == satpoint_text(*sp),
{
    let mut s = String::new();
    push_rev_hex32(&mut s, &sp.outpoint.txid.bytes);
    s.append(":");
    push_dec_u64(&mut s, sp.outpoint.vout as u64);
    s.append(":");
    push_dec_u64(&mut s, sp.offset);
    proof {
        reveal_strlit(":");
        assert(s@ =~= satpoint_text(*sp));
    }
    s
}

/// The explorer base URL of a network. Signet differs from the others by
/// its access scheme.
pub open spec fn explorer_base(c: Chain) -> Seq<char> {
    match c {
        Chain::Signet => "https://localhost/inscription/"@,
        _ => "http://localhost/inscription/"@,
    }
}

/// The explorer URL of an inscription: the network's base URL immediately
/// followed by the inscription's canonical text, nothing else.
pub open spec fn explorer_url_text(c: Chain, id: InscriptionId) -> Seq<char> {
    explorer_base(c) + inscription_id_text(id)
}

/// Renders the explorer URL of an inscription under the given network.
pub fn explorer_url(chain: Chain, id: &InscriptionId) -> (r: String)
    ensures
        r@ == explorer_url_text(chain, *id),
{
    let mut s = match chain {
        Chain::Signet => String::from_str("https://localhost/inscription/"),
        _ => String::from_str("http://localhost/inscription/"),
    };
    push_rev_hex32(&mut s, &id.txid.bytes);
    s.append("i");
    push_dec_u64(&mut s, id.index as u64);
    proof {
        reveal_strlit("i");
        assert(s@ =~= explorer_url_text(chain, *id));
    }
    s
}

/// The inscription locations that survive the join: exactly those whose
/// outpoint is a key of the unspent-output set, in their input order.
pub open spec fn kept_locations(
    insc: Seq<(SatPoint, InscriptionId)>,
    utxos: Seq<OutPoint>,
) -> Seq<(SatPoint, InscriptionId)>
    decreases insc.len(),
{
    if insc.len() == 0 {
        Seq::<(SatPoint, InscriptionId)>::empty()
    } else {
        let rest = kept_locations(insc.drop_first(), utxos);
        if utxo_contains(utxos, insc.first().0.outpoint) {
            seq![insc.first()] + rest
        } else {
            rest
        }
    }
}

/// Extending the input by one pair extends the join result by that pair
/// exactly when its outpoint is unspent.
pub proof fn lemma_kept_snoc(
    insc: Seq<(SatPoint, InscriptionId)>,
    utxos: Seq<OutPoint>,
    x: (SatPoint, InscriptionId),
)
    ensures
        kept_locations(insc.push(x), utxos) == kept_locations(insc, utxos) + (if utxo_contains(
            utxos,
            x.0.outpoint,
        ) {
            seq![x]
        } else {
            Seq::<(SatPoint, InscriptionId)>::empty()
        }),
    decreases insc.len(),
{
    let tail = if utxo_contains(utxos, x.0.outpoint) {
        seq![x]
    } else {
        Seq::<(SatPoint, InscriptionId)>::empty()
    };
    if insc.len() == 0 {
        assert(insc.push(x).drop_first() =~= Seq::<(SatPoint, InscriptionId)>::empty());
        assert(insc.push(x).first() == x);
        assert(kept_locations(Seq::<(SatPoint, InscriptionId)>::empty(), utxos)
            == Seq::<(SatPoint, InscriptionId)>::empty());
        assert(kept_locations(insc.push(x), utxos) =~= kept_locations(insc, utxos) + tail);
    } else {
        assert(insc.push(x).drop_first() =~= insc.drop_first().push(x));
        lemma_kept_snoc(insc.drop_first(), utxos, x);
        assert(insc.push(x).first() == insc.first());
        assert(seq![insc.first()] + (kept_locations(insc.drop_first(), utxos) + tail) =~= (
        seq![insc.first()] + kept_locations(insc.drop_first(), utxos)) + tail);
        assert(kept_locations(insc.push(x), utxos) =~= kept_locations(insc, utxos) + tail);
    }
}

/// The report rows stand for exactly the given location–inscription
/// pairs, in order, each with its explorer URL.
pub open spec fn rows_correspond(
    chain: Chain,
    pairs: Seq<(SatPoint, InscriptionId)>,
    rows: Seq<Output>,
) -> bool {
    &&& rows.len() == pairs.len()
    &&& forall|i: int|
        #![trigger rows[i]]
        0 <= i < rows.len() ==> {
            &&& rows[i].location == pairs[i].0
            &&& rows[i].inscription == pairs[i].1
            &&& rows[i].explorer@ == explorer_url_text(chain, pairs[i].1)
        }
}

/// Joins the indexed inscriptions against the wallet's unspent outputs:
/// a pair survives if and only if its outpoint is a key of the
/// unspent-output set. Input order determines output order; no other
/// order is imposed, and nothing is deduplicated. Each surviving pair is
/// rendered with a network-appropriate explorer URL.
pub fn run(
    chain: Chain,
    inscriptions: &Vec<(SatPoint, InscriptionId)>,
    unspent_outputs: &Vec<OutPoint>,
) -> (r: Vec<Output>)
    ensures
        rows_correspond(chain, kept_locations(inscriptions@, unspent_outputs@), r@),
{
    let mut out: Vec<Output> = Vec::new();
    let mut i: usize = 0;
    proof {
        assert(inscriptions@.take(0) =~= Seq::<(SatPoint, InscriptionId)>::empty());
    }
    while i < inscriptions.len()
        invariant
            i <= inscriptions@.len(),
            rows_correspond(
                chain,
                kept_locations(inscriptions@.take(i as int), unspent_outputs@),
                out@,
            ),
        decreases inscriptions@.len() - i,
    {
        let pair = inscriptions[i];
        let ghost pre = out@;
        if contains_outpoint(unspent_outputs, &pair.0.outpoint) {
            let url = explorer_url(chain, &pair.1);
            out.push(Output { inscription: pair.1, location: pair.0, explorer: url });
        }
        proof {
            assert(inscriptions@.take(i + 1) =~= inscriptions@.take(i as int).push(
                inscriptions@[i as int],
            ));
            lemma_kept_snoc(
                inscriptions@.take(i as int),
                unspent_outputs@,
                inscriptions@[i as int],
            );
        }
        i += 1;
    }
    proof {
        assert(inscriptions@.take(inscriptions@.len() as int) =~= inscriptions@);
    }
    out
}

/// Structured failure of report generation, naming the collaborator step
/// that failed and carrying its message. Failures propagate unchanged: no
/// retry, no partial report.
#[derive(Debug)]
pub enum ReportError {
    IndexSync(String),
    InscriptionFetch(String),
    WalletLoad(String),
    UtxoFetch(String),
}

/// Where report generation stands. Each state up to `FetchingUnspent`
/// names the one collaborator call whose outcome is awaited; `Complete`
/// and `Failed` are terminal.
pub enum ReportState {
    SyncingIndex,
    FetchingInscriptions,
    LoadingWallet { inscriptions: Vec<(SatPoint, InscriptionId)> },
    FetchingUnspent { inscriptions: Vec<(SatPoint, InscriptionId)> },
    Complete { rows: Vec<Output> },
    Failed { error: ReportError },
}

/// The outcome of one collaborator call, as the driver observed it. An
/// error carries the collaborator's message.
pub enum ReportEvent {
    IndexSynced(Result<(), String>),
    InscriptionsFetched(Result<Vec<(SatPoint, InscriptionId)>, String>),
    WalletLoaded(Result<(), String>),
    UnspentFetched(Result<Vec<OutPoint>, String>),
}

/// The event answers the call that the state awaits.
pub open spec fn event_answers(state: ReportState, event: ReportEvent) -> bool {
    match (state, event) {
        (ReportState::SyncingIndex, ReportEvent::IndexSynced(_)) => true,
        (ReportState::FetchingInscriptions, ReportEvent::InscriptionsFetched(_)) => true,
        (ReportState::LoadingWallet { .. }, ReportEvent::WalletLoaded(_)) => true,
        (ReportState::FetchingUnspent { .. }, ReportEvent::UnspentFetched(_)) => true,
        _ => false,
    }
}

/// One step of report generation: from the awaited collaborator outcome
/// to the next state. A failed call fails the whole report with that
/// call's message and asks for nothing further — the terminal states
/// await no call, so an index-synchronization failure in particular means
/// neither inscriptions nor unspent outputs are ever requested. An event
/// that does not answer the awaited call leaves the state unchanged.
pub fn advance(chain: Chain, state: ReportState, event: ReportEvent) -> (next: ReportState)
    ensures
        state is SyncingIndex ==> (event matches ReportEvent::IndexSynced(res) ==> match res {
            Ok(_) => next is FetchingInscriptions,
            Err(m) => next == (ReportState::Failed { error: ReportError::IndexSync(m) }),
        }),
        state is FetchingInscriptions ==> (event matches ReportEvent::InscriptionsFetched(res)
            ==> match res {
            Ok(v) => next == (ReportState::LoadingWallet { inscriptions: v }),
            Err(m) => next == (ReportState::Failed { error: ReportError::InscriptionFetch(m) }),
        }),
        state matches ReportState::LoadingWallet { inscriptions } ==> (event matches
            ReportEvent::WalletLoaded(res) ==> match res {
            Ok(_) => next == (ReportState::FetchingUnspent { inscriptions }),
            Err(m) => next == (ReportState::Failed { error: ReportError::WalletLoad(m) }),
        }),
        state matches ReportState::FetchingUnspent { inscriptions } ==> (event matches
            ReportEvent::UnspentFetched(res) ==> match res {
            Ok(u) => next matches ReportState::Complete { rows } && rows_correspond(
                chain,
                kept_locations(inscriptions@, u@),
                rows@,
            ),
            Err(m) => next == (ReportState::Failed { error: ReportError::UtxoFetch(m) }),
        }),
        !event_answers(state, event) ==> next == state,
{
    match (state, event) {
        (ReportState::SyncingIndex, ReportEvent::IndexSynced(res)) => match res {
            Ok(_) => ReportState::FetchingInscriptions,
            Err(m) => ReportState::Failed { error: ReportError::IndexSync(m) },
        },
        (ReportState::FetchingInscriptions, ReportEvent::InscriptionsFetched(res)) => match res {
            Ok(v) => ReportState::LoadingWallet { inscriptions: v },
            Err(m) => ReportState::Failed { error: ReportError::InscriptionFetch(m) },
        },
        (ReportState::LoadingWallet { inscriptions }, ReportEvent::WalletLoaded(res)) => match res {
            Ok(_) => ReportState::FetchingUnspent { inscriptions },
            Err(m) => ReportState::Failed { error: ReportError::WalletLoad(m) },
        },
        (ReportState::FetchingUnspent { inscriptions }, ReportEvent::UnspentFetched(res)) => match res {
            Ok(u) => ReportState::Complete { rows: run(chain, &inscriptions, &u) },
            Err(m) => ReportState::Failed { error: ReportError::UtxoFetch(m) },
        },
        (s, _) => s,
    }
}

/// If either the inscription mapping or the unspent-output set is empty,
/// the join keeps nothing.
pub proof fn lemma_empty_inputs_keep_nothing(
    insc: Seq<(SatPoint, InscriptionId)>,
    utxos: Seq<OutPoint>,
)
    requires
        insc.len() == 0 || utxos.len() == 0,
    ensures
        kept_locations(insc, utxos).len() == 0,
    decreases insc.len(),
{
    if insc.len() > 0 {
        lemma_empty_inputs_keep_nothing(insc.drop_first(), utxos);
    }
}

/// If either the inscription mapping or the unspent-output set is empty,
/// the generated report is an empty sequence — not an error.
pub proof fn lemma_empty_inputs_empty_report(
    chain: Chain,
    insc: Seq<(SatPoint, InscriptionId)>,
    utxos: Seq<OutPoint>,
    rows: Seq<Output>,
)
    requires
        insc.len() == 0 || utxos.len() == 0,
        rows_correspond(chain, kept_locations(insc, utxos), rows),
    ensures
        rows.len() == 0,
{
    lemma_empty_inputs_keep_nothing(insc, utxos);
}

/// Every produced row's explorer field is the network's base URL
/// immediately followed by that row's own inscription identifier in
/// canonical text, with no other characters inserted.
pub proof fn lemma_explorer_url_shape(
    chain: Chain,
    pairs: Seq<(SatPoint, InscriptionId)>,
    rows: Seq<Output>,
    i: int,
)
    requires
        rows_correspond(chain, pairs, rows),
        0 <= i < rows.len(),
    ensures
        rows[i].explorer@ == explorer_base(chain) + inscription_id_text(rows[i].inscription),
{
}

} // verus!
