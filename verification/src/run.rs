//! What a run does to a store: the model of a run against surroundings that
//! answer as functions of what they are asked, and the laws that hold of it.

use crate::address::base58_decoded;
use crate::address::base58_text;
use crate::address::metadata_address_of;
use crate::document::OffChainDocumentView;
use crate::driver::asset_of;
use crate::driver::on_line;
use crate::driver::AccountAnswerView;
use crate::driver::ActionView;
use crate::driver::DocumentAnswerView;
use crate::driver::DriverView;
use crate::driver::EventView;
use crate::driver::PersistAnswer;
use crate::driver::Progress;
use crate::error::MineErrorView;
use crate::normalize::lemma_normalized_rejects;
use crate::normalize::normalized;
use crate::normalize::refused_shape;
use crate::normalize::row_of;
use crate::normalize::TraitRowView;
use crate::record::decoded_record;
use crate::record::lemma_decoded_record_is_unpadded;
use crate::store::lemma_with_asset_has_mint;
use crate::store::lemma_with_asset_keeps_wf;
use crate::store::AssetRecordView;
use crate::store::StoreView;
use crate::text::nul;
use crate::text::unpadded;
use vstd::prelude::*;

verus! {

/// The surroundings of a run, as far as they are not the store: what the
/// ledger answers for each address and what is found at each location.
pub struct World {
    pub accounts: spec_fn(Seq<u8>) -> AccountAnswerView,
    pub documents: spec_fn(Seq<char>) -> DocumentAnswerView,
}

/// What mining gives for the identifier `mint`: the record to keep and its
/// rows, or the failure of the first stage that fails.
pub open spec fn mined(world: World, mint: Seq<u8>) -> Result<(AssetRecordView, Seq<TraitRowView>), MineErrorView> {
    match metadata_address_of(mint) {
        None => Err(MineErrorView::Derivation),
        Some(metadata) => match (world.accounts)(metadata) {
            AccountAnswerView::Unreachable => Err(MineErrorView::Network),
            AccountAnswerView::Missing => Err(MineErrorView::NotFound),
            AccountAnswerView::Found(data) => match decoded_record(data) {
                None => Err(MineErrorView::Decode),
                Some(record) => match (world.documents)(record.uri) {
                    DocumentAnswerView::Unreachable => Err(MineErrorView::Network),
                    DocumentAnswerView::Malformed => Err(MineErrorView::Format),
                    DocumentAnswerView::Fetched(document) => match normalized(document.attributes) {
                        Err(failure) => Err(failure),
                        Ok(rows) => Ok((asset_of(mint, metadata, record, document), rows)),
                    },
                },
            },
        },
    }
}

/// What one line of input does to the store, and how it ends: skipped
/// where the store holds the identifier, mined and persisted where every
/// stage succeeds, failed otherwise. A failure leaves the store as it was.
pub open spec fn mine_line(world: World, store: StoreView, line: Seq<char>) -> (
    StoreView,
    Result<Progress, MineErrorView>,
) {
    match base58_decoded(line) {
        None => (store, Err(MineErrorView::Input)),
        Some(mint) => if store.has_mint(base58_text(mint)) {
            (store, Ok(Progress::Skipped))
        } else {
            match mined(world, mint) {
                Err(failure) => (store, Err(failure)),
                Ok(found) => if store.accepts(found.0) {
                    (store.persisted(found.0, found.1), Ok(Progress::Mined))
                } else {
                    (store, Err(MineErrorView::Constraint))
                },
            }
        },
    }
}

/// How a run ended: the store it left, how each completed identifier was
/// completed, in order, and the failure that aborted it, if one did.
pub struct RunView {
    pub store: StoreView,
    pub progress: Seq<Progress>,
    pub failure: Option<MineErrorView>,
}

/// What a run over `lines` does, line by line in order, up to the first
/// failure.
pub open spec fn run(world: World, store: StoreView, lines: Seq<Seq<char>>) -> RunView
    decreases lines.len(),
{
    if lines.len() == 0 {
        RunView { store, progress: Seq::empty(), failure: None }
    } else {
        let first = mine_line(world, store, lines[0]);
        match first.1 {
            Err(failure) => RunView { store: first.0, progress: Seq::empty(), failure: Some(failure) },
            Ok(progress) => {
                let rest = run(world, first.0, lines.drop_first());
                RunView {
                    store: rest.store,
                    progress: seq![progress] + rest.progress,
                    failure: rest.failure,
                }
            },
        }
    }
}

/// What the surroundings answer to `action` while the store is `store`,
/// with the store as the action leaves it.
pub open spec fn answer(world: World, store: StoreView, action: ActionView) -> (StoreView, EventView) {
    match action {
        ActionView::CountMint { mint_address } => (
            store,
            EventView::Counted(
                if store.has_mint(mint_address) {
                    1u8
                } else {
                    0u8
                },
            ),
        ),
        ActionView::FetchAccount { address } => (store, EventView::Account((world.accounts)(address))),
        ActionView::FetchDocument { uri } => (store, EventView::Document((world.documents)(uri))),
        ActionView::Persist { asset, attributes } => if store.accepts(asset) {
            (store.persisted(asset, attributes), EventView::Persisted(PersistAnswer::Stored))
        } else {
            (store, EventView::Persisted(PersistAnswer::Conflict))
        },
        _ => (store, EventView::Proceed),
    }
}

/// Where the machine came to rest for the identifier in hand.
pub struct Settled {
    pub store: StoreView,
    pub state: DriverView,
    pub outcome: Result<Progress, MineErrorView>,
}

/// Where the machine ends for the identifier in hand when each action is
/// answered by the surroundings, within `limit` answers.
pub open spec fn settle(world: World, store: StoreView, step: (DriverView, ActionView), limit: nat) -> Settled
    decreases limit,
{
    match step.1 {
        ActionView::Report(progress) => Settled { store, state: step.0, outcome: Ok(progress) },
        ActionView::Abort(failure) => Settled { store, state: step.0, outcome: Err(failure) },
        _ => if limit == 0 {
            Settled { store, state: step.0, outcome: Err(MineErrorView::Input) }
        } else {
            let answered = answer(world, store, step.1);
            settle(world, answered.0, step.0.step(answered.1), (limit - 1) as nat)
        },
    }
}

/// What the machine does over `lines` when each action is answered by the
/// surroundings: it takes each line in turn from the state in which the
/// line before left it, up to the first failure.
pub open spec fn machine_run(world: World, store: StoreView, state: DriverView, lines: Seq<Seq<char>>) -> RunView
    decreases lines.len(),
{
    if lines.len() == 0 {
        RunView { store, progress: Seq::empty(), failure: None }
    } else {
        let settled = settle(world, store, state.step(EventView::Line(lines[0])), 6);
        match settled.outcome {
            Err(failure) => RunView { store: settled.store, progress: Seq::empty(), failure: Some(failure) },
            Ok(progress) => {
                let rest = machine_run(world, settled.store, settled.state, lines.drop_first());
                RunView {
                    store: rest.store,
                    progress: seq![progress] + rest.progress,
                    failure: rest.failure,
                }
            },
        }
    }
}

/// The machine mines a line as the model says: started on the line and
/// answered by the surroundings, it comes to rest within six answers, with
/// the store and the outcome of `mine_line`. It rests ready for the next
/// line where the line was completed, and aborted where it failed.
pub proof fn lemma_machine_mines_line(world: World, store: StoreView, line: Seq<char>)
    ensures
        settle(world, store, on_line(line), 6).store == mine_line(world, store, line).0,
        settle(world, store, on_line(line), 6).outcome == mine_line(world, store, line).1,
        settle(world, store, on_line(line), 6).state == if mine_line(world, store, line).1 is Ok {
            DriverView::Done
        } else {
            DriverView::Aborted
        },
{
    reveal_with_fuel(settle, 7);
}

/// The machine runs as the model says: started at the beginning of the
/// input and answered by the surroundings, it leaves the store, the
/// progress and the failure of `run`.
pub proof fn lemma_machine_runs_as_model(world: World, store: StoreView, lines: Seq<Seq<char>>)
    ensures
        machine_run(world, store, DriverView::Ready, lines) == run(world, store, lines),
        machine_run(world, store, DriverView::Done, lines) == run(world, store, lines),
    decreases lines.len(),
{
    if lines.len() > 0 {
        lemma_machine_mines_line(world, store, lines[0]);
        let first = mine_line(world, store, lines[0]);
        if first.1 is Ok {
            lemma_machine_runs_as_model(world, first.0, lines.drop_first());
        }
    }
}

/// Every action that the machine asks for is answered by an event that it
/// waits for.
pub proof fn lemma_answers_are_awaited(world: World, store: StoreView, state: DriverView, event: EventView)
    requires
        state.awaits(event),
        !(state.step(event).1 is Report),
        !(state.step(event).1 is Abort),
        !(state.step(event).1 is Stop),
    ensures
        state.step(event).0.awaits(answer(world, store, state.step(event).1).1),
{
}

/// A line leaves in the store every mint address that it held.
pub proof fn lemma_mine_line_keeps_mints(world: World, store: StoreView, line: Seq<char>, mint_address: Seq<char>)
    requires
        store.has_mint(mint_address),
    ensures
        mine_line(world, store, line).0.has_mint(mint_address),
{
    let after = mine_line(world, store, line);
    if after.1 == Ok::<Progress, MineErrorView>(Progress::Mined) {
        let found = mined(world, base58_decoded(line)->0)->Ok_0;
        lemma_with_asset_has_mint(store, found.0, mint_address);
        lemma_attributes_keep_mints(store.with_asset(found.0), found.0.mint_address, found.1, mint_address);
    }
}

/// Appending attribute rows changes no asset record.
pub proof fn lemma_attributes_keep_mints(
    store: StoreView,
    owner: Seq<char>,
    rows: Seq<TraitRowView>,
    mint_address: Seq<char>,
)
    ensures
        store.with_attributes(owner, rows).has_mint(mint_address) == store.has_mint(mint_address),
        store.with_attributes(owner, rows).wf() == store.wf(),
{
    let after = store.with_attributes(owner, rows);
    assert(after.assets == store.assets);
    if store.has_mint(mint_address) {
        let i = choose|i: int| 0 <= i < store.assets.len() && (#[trigger] store.assets[i]).mint_address == mint_address;
        assert(after.assets[i].mint_address == mint_address);
    }
    if after.has_mint(mint_address) {
        let i = choose|i: int| 0 <= i < after.assets.len() && (#[trigger] after.assets[i]).mint_address == mint_address;
        assert(store.assets[i].mint_address == mint_address);
    }
}

/// A line that does not fail leaves its identifier in the store.
pub proof fn lemma_completed_line_is_held(world: World, store: StoreView, line: Seq<char>)
    requires
        mine_line(world, store, line).1 is Ok,
    ensures
        base58_decoded(line) is Some,
        mine_line(world, store, line).0.has_mint(base58_text(base58_decoded(line)->0)),
{
    let mint = base58_decoded(line)->0;
    if !store.has_mint(base58_text(mint)) {
        let found = mined(world, mint)->Ok_0;
        lemma_with_asset_has_mint(store, found.0, base58_text(mint));
        lemma_attributes_keep_mints(store.with_asset(found.0), found.0.mint_address, found.1, base58_text(mint));
    }
}

/// A run leaves in the store every mint address that it held.
pub proof fn lemma_run_keeps_mints(world: World, store: StoreView, lines: Seq<Seq<char>>, mint_address: Seq<char>)
    requires
        store.has_mint(mint_address),
    ensures
        run(world, store, lines).store.has_mint(mint_address),
    decreases lines.len(),
{
    if lines.len() > 0 {
        let first = mine_line(world, store, lines[0]);
        lemma_mine_line_keeps_mints(world, store, lines[0], mint_address);
        if first.1 is Ok {
            lemma_run_keeps_mints(world, first.0, lines.drop_first(), mint_address);
        }
    }
}

/// A run keeps mint addresses and metadata addresses unique.
pub proof fn lemma_run_keeps_wf(world: World, store: StoreView, lines: Seq<Seq<char>>)
    requires
        store.wf(),
    ensures
        run(world, store, lines).store.wf(),
    decreases lines.len(),
{
    if lines.len() > 0 {
        let first = mine_line(world, store, lines[0]);
        if first.1 == Ok::<Progress, MineErrorView>(Progress::Mined) {
            let found = mined(world, base58_decoded(lines[0])->0)->Ok_0;
            lemma_with_asset_keeps_wf(store, found.0);
            lemma_attributes_keep_mints(store.with_asset(found.0), found.0.mint_address, found.1, found.0.mint_address);
        }
        if first.1 is Ok {
            lemma_run_keeps_wf(world, first.0, lines.drop_first());
        }
    }
}

/// Running again over the same lines, against the store that the first run
/// left and the same surroundings, changes nothing: the store stays as it
/// is, every identifier that the first run completed is skipped, and the
/// run ends as the first one did.
pub proof fn lemma_rerun_changes_nothing(world: World, store: StoreView, lines: Seq<Seq<char>>)
    ensures
        run(world, run(world, store, lines).store, lines).store == run(world, store, lines).store,
        run(world, run(world, store, lines).store, lines).failure == run(world, store, lines).failure,
        run(world, run(world, store, lines).store, lines).progress.len() == run(
            world,
            store,
            lines,
        ).progress.len(),
        forall|i: int|
            0 <= i < run(world, store, lines).progress.len() ==> #[trigger] run(
                world,
                run(world, store, lines).store,
                lines,
            ).progress[i] == Progress::Skipped,
    decreases lines.len(),
{
    if lines.len() > 0 {
        let first = mine_line(world, store, lines[0]);
        if first.1 is Ok {
            let rest = lines.drop_first();
            let left = run(world, first.0, rest).store;
            assert(run(world, store, lines).store == left);
            lemma_rerun_changes_nothing(world, first.0, rest);
            lemma_completed_line_is_held(world, store, lines[0]);
            let mint_address = base58_text(base58_decoded(lines[0])->0);
            lemma_run_keeps_mints(world, first.0, rest, mint_address);
            assert(mine_line(world, left, lines[0]) == (left, Ok::<Progress, MineErrorView>(Progress::Skipped)));
            let again = run(world, left, lines);
            let again_rest = run(world, left, rest);
            assert(again.progress == seq![Progress::Skipped] + again_rest.progress);
            assert forall|i: int| 0 <= i < run(world, store, lines).progress.len() implies #[trigger] again.progress[i]
                == Progress::Skipped by {
                if i > 0 {
                    assert(again.progress[i] == again_rest.progress[i - 1]);
                }
            }
        }
    }
}

/// How many of the identifiers in `progress` were mined.
pub open spec fn mined_count(progress: Seq<Progress>) -> nat
    decreases progress.len(),
{
    if progress.len() == 0 {
        0
    } else if progress[0] == Progress::Mined {
        1 + mined_count(progress.drop_first())
    } else {
        mined_count(progress.drop_first())
    }
}

/// An identifier that the store holds is skipped, and the store stays as
/// it is.
pub proof fn lemma_held_identifier_is_skipped(world: World, store: StoreView, line: Seq<char>)
    requires
        base58_decoded(line) is Some,
        store.has_mint(base58_text(base58_decoded(line)->0)),
    ensures
        mine_line(world, store, line) == (store, Ok::<Progress, MineErrorView>(Progress::Skipped)),
{
}

/// A run adds one asset record for each identifier that it reports as
/// mined, and none besides.
pub proof fn lemma_run_adds_one_record_per_mined(world: World, store: StoreView, lines: Seq<Seq<char>>)
    ensures
        run(world, store, lines).store.assets.len() == store.assets.len() + mined_count(
            run(world, store, lines).progress,
        ),
    decreases lines.len(),
{
    if lines.len() > 0 {
        let first = mine_line(world, store, lines[0]);
        if first.1 is Ok {
            let rest = run(world, first.0, lines.drop_first());
            lemma_run_adds_one_record_per_mined(world, first.0, lines.drop_first());
            let progress = run(world, store, lines).progress;
            assert(progress[0] == first.1->Ok_0);
            assert(progress.drop_first() =~= rest.progress);
        }
    }
}

/// Whether mining the identifier of `line` gets as far as this document:
/// the line encodes an identifier, its metadata address is derived, the
/// account there decodes, and the location it names holds `document`.
pub open spec fn reaches_document(world: World, line: Seq<char>, document: OffChainDocumentView) -> bool {
    &&& base58_decoded(line) matches Some(mint)
    &&& metadata_address_of(mint) matches Some(metadata)
    &&& (world.accounts)(metadata) matches AccountAnswerView::Found(data)
    &&& decoded_record(data) matches Some(record)
    &&& (world.documents)(record.uri) == DocumentAnswerView::Fetched(document)
}

/// A line that fails persists nothing.
pub proof fn lemma_failure_persists_nothing(world: World, store: StoreView, line: Seq<char>)
    requires
        mine_line(world, store, line).1 is Err,
    ensures
        mine_line(world, store, line).0 == store,
{
}

/// A document with an attribute whose value is null, a boolean, an array or
/// an object makes its identifier fail with an unsupported-shape failure,
/// and nothing is persisted for it.
pub proof fn lemma_refused_attribute_persists_nothing(
    world: World,
    store: StoreView,
    line: Seq<char>,
    document: OffChainDocumentView,
    i: int,
)
    requires
        reaches_document(world, line, document),
        !store.has_mint(base58_text(base58_decoded(line)->0)),
        0 <= i < document.attributes.len(),
        refused_shape(document.attributes[i].value) is Some,
    ensures
        mine_line(world, store, line).0 == store,
        mine_line(world, store, line).1 is Err,
        mine_line(world, store, line).1->Err_0 is UnsupportedAttributeShape,
{
    lemma_normalized_rejects(document.attributes, i);
}

/// The rows of a mined asset are appended to the store in the order of the
/// document's attributes, each under the asset's mint address.
pub proof fn lemma_mined_rows_keep_order(
    world: World,
    store: StoreView,
    line: Seq<char>,
    document: OffChainDocumentView,
)
    requires
        mine_line(world, store, line).1 == Ok::<Progress, MineErrorView>(Progress::Mined),
        reaches_document(world, line, document),
    ensures
        ({
            let after = mine_line(world, store, line).0;
            let mint_address = base58_text(base58_decoded(line)->0);
            let before = store.attributes.len() as int;
            &&& after.attributes.len() == before + document.attributes.len()
            &&& after.attributes.subrange(0, before) == store.attributes
            &&& forall|i: int|
                0 <= i < document.attributes.len() ==> {
                    &&& (#[trigger] after.attributes[before + i]).mint_address == mint_address
                    &&& after.attributes[before + i].trait_type == document.attributes[i].trait_type
                    &&& after.attributes[before + i].value == row_of(document.attributes[i]).value
                }
        }),
{
    let after = mine_line(world, store, line).0;
    let before = store.attributes.len() as int;
    assert(after.attributes.subrange(0, before) =~= store.attributes);
}

/// What is kept of a mined asset holds no trailing padding: neither
/// on-chain field ends with a NUL character.
pub proof fn lemma_mined_asset_is_unpadded(world: World, mint: Seq<u8>)
    requires
        mined(world, mint) is Ok,
    ensures
        unpadded(mined(world, mint)->Ok_0.0.on_chain_name, nul()),
        unpadded(mined(world, mint)->Ok_0.0.on_chain_uri, nul()),
{
    let metadata = metadata_address_of(mint)->0;
    let data = (world.accounts)(metadata)->Found_0;
    lemma_decoded_record_is_unpadded(data);
}

} // verus!
