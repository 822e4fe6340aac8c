//! Checks of fixtures and fixture manifests against the contract document.

use vstd::prelude::*;

use crate::codec::diagnostics::{
    check_outcome, codec_error, then_check, CodecDiagnostic, CodecDiagnosticView, CodecResult,
};
use crate::codec::json_debug::{
    ContractDocument, ContractRow, FixtureEnvelope, FixtureEnvelopeView, FixtureManifest,
    FixtureManifestEntry, InvalidFixture,
};
use crate::text::{
    debug_quoted, debug_quoted_list, debug_text, debug_text_list, decimal, owned, push_decimal,
    same_texts, texts,
};

verus! {

pub const SERIALIZED_FIXTURE_ROOT: &'static str = "valdi_rust/fixtures/serialized";

/// The fixture ID that a contract row's fixture must carry.
pub open spec fn expected_fixture_id_text(row_id: Seq<char>) -> Seq<char> {
    "contract."@ + row_id + ".v1"@
}

/// The path under which a contract row's serialized fixture must be stored.
pub open spec fn expected_path_text(row_id: Seq<char>) -> Seq<char> {
    SERIALIZED_FIXTURE_ROOT@ + "/"@ + row_id + ".ir.json"@
}

/// The check that a text field equals the value the contract expects.
pub open spec fn compare_check(
    name: Seq<char>,
    path: Seq<char>,
    actual: Seq<char>,
    expected: Seq<char>,
    code: Seq<char>,
) -> Result<(), CodecDiagnosticView> {
    if actual == expected {
        Ok(())
    } else {
        Err(
            codec_error(
                code,
                path,
                name + " drift: "@ + debug_text(actual) + " != "@ + debug_text(expected),
            ),
        )
    }
}

/// The check that a list field equals the list the contract expects.
pub open spec fn compare_list_check(
    name: Seq<char>,
    path: Seq<char>,
    actual: Seq<Seq<char>>,
    expected: Seq<Seq<char>>,
) -> Result<(), CodecDiagnosticView> {
    if actual == expected {
        Ok(())
    } else {
        Err(
            codec_error(
                "IR_CONTRACT_DRIFT"@,
                path,
                name + " drift: "@ + debug_text_list(actual) + " != "@ + debug_text_list(expected),
            ),
        )
    }
}

/// The first contract row, in order, whose ID is `id`.
pub open spec fn find_row(rows: Seq<ContractRow>, id: Seq<char>) -> Option<ContractRow>
    decreases rows.len(),
{
    if rows.len() == 0 {
        None
    } else if rows[0].id@ == id {
        Some(rows[0])
    } else {
        find_row(rows.drop_first(), id)
    }
}

/// The IDs of the contract rows, in order.
pub open spec fn row_ids(rows: Seq<ContractRow>) -> Seq<Seq<char>> {
    rows.map_values(|row: ContractRow| row.id@)
}

/// Whether the ID at `k` already occurs before `k`.
pub open spec fn repeats_at(ids: Seq<Seq<char>>, k: int) -> bool {
    0 <= k < ids.len() && ids.take(k).contains(ids[k])
}

/// The first position whose ID already occurred before it.
pub open spec fn first_repeat(ids: Seq<Seq<char>>) -> int {
    choose|k: int| repeats_at(ids, k) && forall|j: int| 0 <= j < k ==> !repeats_at(ids, j)
}

/// The check that the contract rows can be keyed by their IDs.
pub open spec fn unique_rows_check(rows: Seq<ContractRow>) -> Result<(), CodecDiagnosticView> {
    let ids = row_ids(rows);
    if ids.no_duplicates() {
        Ok(())
    } else {
        Err(
            codec_error(
                "IR_CONTRACT_ROW_DUPLICATE"@,
                "$.rows[].id"@,
                "duplicate contract row "@ + ids[first_repeat(ids)],
            ),
        )
    }
}

/// The checks of a fixture against the row of the contract it names.
pub open spec fn fixture_contract_check(f: FixtureEnvelopeView, contract: ContractDocument) -> Result<
    (),
    CodecDiagnosticView,
> {
    match find_row(contract.rows@, f.contract_row_id) {
        None => Err(
            codec_error(
                "IR_CONTRACT_ROW_MISSING"@,
                "$.contract_row_id"@,
                "missing contract row "@ + f.contract_row_id,
            ),
        ),
        Some(row) => then_check(
            compare_check(
                "fixture ID"@,
                "$.fixture_id"@,
                f.fixture_id,
                expected_fixture_id_text(row.id@),
                "IR_FIXTURE_ID_DRIFT"@,
            ),
            then_check(
                compare_check(
                    "serialized artifact path"@,
                    "$.metadata.serialized_artifact_path"@,
                    f.serialized_artifact_path,
                    expected_path_text(row.id@),
                    "IR_FIXTURE_PATH_DRIFT"@,
                ),
                then_check(
                    compare_check(
                        "surface"@,
                        "$.surface"@,
                        f.surface,
                        row.surface@,
                        "IR_CONTRACT_DRIFT"@,
                    ),
                    fixture_row_lists_check(f, row),
                ),
            ),
        ),
    }
}

/// The list comparisons of a fixture against its contract row, then the
/// contract surface.
pub open spec fn fixture_row_lists_check(f: FixtureEnvelopeView, row: ContractRow) -> Result<
    (),
    CodecDiagnosticView,
> {
    then_check(
        compare_list_check(
            "fixture tags"@,
            "$.fixture_tags"@,
            f.fixture_tags,
            texts(row.fixture_tags@),
        ),
        then_check(
            compare_list_check(
                "platform targets"@,
                "$.platform_targets"@,
                f.platform_targets,
                texts(row.platform_targets@),
            ),
            then_check(
                compare_list_check(
                    "owner PRs"@,
                    "$.metadata.owner_prs"@,
                    f.owner_prs,
                    texts(row.owner_prs@),
                ),
                then_check(
                    compare_list_check(
                        "proof PRs"@,
                        "$.metadata.proof_prs"@,
                        f.proof_prs,
                        texts(row.proof_prs@),
                    ),
                    then_check(
                        compare_check(
                            "contract surface"@,
                            "$.ir_debug.contract_surface"@,
                            f.contract_surface,
                            row.id@,
                            "IR_CONTRACT_DRIFT"@,
                        ),
                        compare_list_check(
                            "coverage tokens"@,
                            "$.ir_debug.coverage_tokens"@,
                            f.coverage_tokens,
                            texts(row.coverage@),
                        ),
                    ),
                ),
            ),
        ),
    )
}

/// The row a lookup finds carries the ID that was asked for and is the first
/// such row of the contract; no row is found exactly when none has that ID.
pub proof fn lemma_find_row_first_with_id(rows: Seq<ContractRow>, id: Seq<char>)
    ensures
        find_row(rows, id) is None <==> forall|k: int| 0 <= k < rows.len() ==> rows[k].id@ != id,
        find_row(rows, id) is Some ==> exists|k: int|
            0 <= k < rows.len() && rows[k] == find_row(rows, id)->0 && rows[k].id@ == id && forall|
                j: int,
            |
                0 <= j < k ==> rows[j].id@ != id,
    decreases rows.len(),
{
    if rows.len() > 0 {
        lemma_find_row_first_with_id(rows.drop_first(), id);
        if rows[0].id@ != id {
            if find_row(rows, id) is Some {
                let k = choose|k: int|
                    0 <= k < rows.drop_first().len() && rows.drop_first()[k] == find_row(
                        rows.drop_first(),
                        id,
                    )->0 && rows.drop_first()[k].id@ == id && forall|j: int|
                        0 <= j < k ==> rows.drop_first()[j].id@ != id;
                assert(rows[k + 1] == find_row(rows, id)->0);
                assert forall|j: int| 0 <= j < k + 1 implies rows[j].id@ != id by {
                    if j > 0 {
                        assert(rows[j] == rows.drop_first()[j - 1]);
                    }
                }
            } else {
                assert forall|k: int| 0 <= k < rows.len() implies rows[k].id@ != id by {
                    if k > 0 {
                        assert(rows[k] == rows.drop_first()[k - 1]);
                    }
                }
            }
        } else {
            assert(rows[0] == find_row(rows, id)->0);
        }
    }
}

/// A fixture passes the contract check exactly when the contract has a row
/// with the ID it names, and against the first such row its fixture ID is
/// `contract.<row>.v1`, its artifact path is `<root>/<row>.ir.json`, its
/// contract surface is the row ID, and its surface, fixture tags, platform
/// targets, owner PRs, proof PRs and coverage tokens are the row's.  A
/// fixture that names no row is refused with `IR_CONTRACT_ROW_MISSING`.
pub proof fn lemma_fixture_matches_its_row(f: FixtureEnvelopeView, contract: ContractDocument)
    ensures
        fixture_contract_check(f, contract) is Ok <==> (find_row(contract.rows@, f.contract_row_id) matches Some(row)
            && row.id@ == f.contract_row_id
            && f.fixture_id == "contract."@ + row.id@ + ".v1"@
            && f.serialized_artifact_path == SERIALIZED_FIXTURE_ROOT@ + "/"@ + row.id@ + ".ir.json"@
            && f.surface == row.surface@
            && f.fixture_tags == texts(row.fixture_tags@)
            && f.platform_targets == texts(row.platform_targets@)
            && f.owner_prs == texts(row.owner_prs@)
            && f.proof_prs == texts(row.proof_prs@)
            && f.contract_surface == row.id@
            && f.coverage_tokens == texts(row.coverage@)),
        find_row(contract.rows@, f.contract_row_id) is None ==> fixture_contract_check(f, contract)->Err_0.code
            == "IR_CONTRACT_ROW_MISSING"@,
{
    lemma_find_row_first_with_id(contract.rows@, f.contract_row_id);
}

fn compare_with_code(name: &str, path: &str, actual: &str, expected: &str, code: &str) -> (r:
    CodecResult<()>)
    ensures
        check_outcome(r) == compare_check(name@, path@, actual@, expected@, code@),
{
    if crate::text::same_text(actual, expected) {
        return Ok(());
    }
    let mut message = owned(name);
    message.append(" drift: ");
    message.append(debug_quoted(actual).as_str());
    message.append(" != ");
    message.append(debug_quoted(expected).as_str());
    Err(CodecDiagnostic::error(code, path, message))
}

fn compare(name: &str, path: &str, actual: &str, expected: &str) -> (r: CodecResult<()>)
    ensures
        check_outcome(r) == compare_check(name@, path@, actual@, expected@, "IR_CONTRACT_DRIFT"@),
{
    compare_with_code(name, path, actual, expected, "IR_CONTRACT_DRIFT")
}

fn compare_vec(name: &str, path: &str, actual: &[String], expected: &[String]) -> (r: CodecResult<
    (),
>)
    ensures
        check_outcome(r) == compare_list_check(name@, path@, texts(actual@), texts(expected@)),
{
    if same_texts(actual, expected) {
        return Ok(());
    }
    let mut message = owned(name);
    message.append(" drift: ");
    message.append(debug_quoted_list(actual).as_str());
    message.append(" != ");
    message.append(debug_quoted_list(expected).as_str());
    Err(CodecDiagnostic::error("IR_CONTRACT_DRIFT", path, message))
}

/// The fixture ID expected for a contract row.
pub fn expected_fixture_id(contract_row_id: &str) -> (r: String)
    ensures
        r@ == expected_fixture_id_text(contract_row_id@),
{
    let mut id = owned("contract.");
    id.append(contract_row_id);
    id.append(".v1");
    id
}

/// The serialized artifact path expected for a contract row.
pub fn expected_serialized_artifact_path(contract_row_id: &str) -> (r: String)
    ensures
        r@ == expected_path_text(contract_row_id@),
{
    let mut path = owned(SERIALIZED_FIXTURE_ROOT);
    path.append("/");
    path.append(contract_row_id);
    path.append(".ir.json");
    path
}

/// The first row of the contract whose ID is `row_id`.
fn contract_row<'a>(contract: &'a ContractDocument, row_id: &str) -> (r: CodecResult<&'a ContractRow>)
    ensures
        match find_row(contract.rows@, row_id@) {
            Some(row) => r matches Ok(found) && *found == row,
            None => r matches Err(d) && d@ == codec_error(
                "IR_CONTRACT_ROW_MISSING"@,
                "$.contract_row_id"@,
                "missing contract row "@ + row_id@,
            ),
        },
{
    let ghost all = contract.rows@;
    assert(all.skip(0) =~= all);
    let mut i: usize = 0;
    while i < contract.rows.len()
        invariant
            i <= all.len(),
            all == contract.rows@,
            find_row(all, row_id@) == find_row(all.skip(i as int), row_id@),
        decreases all.len() - i,
    {
        proof {
            assert(all.skip(i as int).drop_first() =~= all.skip(i + 1));
        }
        if crate::text::same_text(contract.rows[i].id.as_str(), row_id) {
            return Ok(&contract.rows[i]);
        }
        i = i + 1;
    }
    let mut message = owned("missing contract row ");
    message.append(row_id);
    Err(CodecDiagnostic::error("IR_CONTRACT_ROW_MISSING", "$.contract_row_id", message))
}

/// Checks a fixture against the row of the contract that it names: its
/// fixture ID and artifact path follow from the row ID, and its surface,
/// tags, targets, PRs, contract surface and coverage tokens are the row's.
pub fn validate_fixture_against_contract(fixture: &FixtureEnvelope, contract: &ContractDocument) -> (r:
    CodecResult<()>)
    ensures
        check_outcome(r) == fixture_contract_check(fixture@, *contract),
{
    let row = match contract_row(contract, fixture.contract_row_id.as_str()) {
        Ok(row) => row,
        Err(d) => return Err(d),
    };
    let expected_id = expected_fixture_id(row.id.as_str());
    let r = compare_with_code(
        "fixture ID",
        "$.fixture_id",
        fixture.fixture_id.as_str(),
        expected_id.as_str(),
        "IR_FIXTURE_ID_DRIFT",
    );
    if r.is_err() {
        return r;
    }
    let expected_path = expected_serialized_artifact_path(row.id.as_str());
    let r = compare_with_code(
        "serialized artifact path",
        "$.metadata.serialized_artifact_path",
        fixture.metadata.serialized_artifact_path.as_str(),
        expected_path.as_str(),
        "IR_FIXTURE_PATH_DRIFT",
    );
    if r.is_err() {
        return r;
    }
    let r = compare("surface", "$.surface", fixture.surface.as_str(), row.surface.as_str());
    if r.is_err() {
        return r;
    }
    let r = compare_vec("fixture tags", "$.fixture_tags", &fixture.fixture_tags, &row.fixture_tags);
    if r.is_err() {
        return r;
    }
    let r = compare_vec(
        "platform targets",
        "$.platform_targets",
        &fixture.platform_targets,
        &row.platform_targets,
    );
    if r.is_err() {
        return r;
    }
    let r = compare_vec(
        "owner PRs",
        "$.metadata.owner_prs",
        &fixture.metadata.owner_prs,
        &row.owner_prs,
    );
    if r.is_err() {
        return r;
    }
    let r = compare_vec(
        "proof PRs",
        "$.metadata.proof_prs",
        &fixture.metadata.proof_prs,
        &row.proof_prs,
    );
    if r.is_err() {
        return r;
    }
    let r = compare(
        "contract surface",
        "$.ir_debug.contract_surface",
        fixture.ir_debug.contract_surface.as_str(),
        row.id.as_str(),
    );
    if r.is_err() {
        return r;
    }
    compare_vec(
        "coverage tokens",
        "$.ir_debug.coverage_tokens",
        &fixture.ir_debug.coverage_tokens,
        &row.coverage,
    )
}

/// The fixture IDs of manifest entries, in order.
pub open spec fn entry_fixture_ids(entries: Seq<FixtureManifestEntry>) -> Seq<Seq<char>> {
    entries.map_values(|e: FixtureManifestEntry| e.fixture_id@)
}

/// The contract row IDs of manifest entries, in order.
pub open spec fn entry_row_ids(entries: Seq<FixtureManifestEntry>) -> Seq<Seq<char>> {
    entries.map_values(|e: FixtureManifestEntry| e.contract_row_id@)
}

/// The checks of the manifest entry at `i`, given the entries before it.
pub open spec fn entry_check(entries: Seq<FixtureManifestEntry>, i: int, rows: Seq<ContractRow>) -> Result<
    (),
    CodecDiagnosticView,
> {
    let e = entries[i];
    let prior = entries.take(i);
    if entry_fixture_ids(prior).contains(e.fixture_id@) {
        Err(
            codec_error(
                "IR_FIXTURE_ID_DUPLICATE"@,
                "$.fixtures[].fixture_id"@,
                "duplicate fixture ID "@ + e.fixture_id@,
            ),
        )
    } else {
        match find_row(rows, e.contract_row_id@) {
            None => Err(
                codec_error(
                    "IR_CONTRACT_ROW_MISSING"@,
                    "$.fixtures[].contract_row_id"@,
                    "unknown contract row "@ + e.contract_row_id@,
                ),
            ),
            Some(row) => if entry_row_ids(prior).contains(e.contract_row_id@) {
                Err(
                    codec_error(
                        "IR_FIXTURE_CONTRACT_ROW_DUPLICATE"@,
                        "$.fixtures[].contract_row_id"@,
                        "duplicate fixture contract row "@ + e.contract_row_id@,
                    ),
                )
            } else {
                entry_row_check(e, row)
            },
        }
    }
}

/// The comparisons of a manifest entry with its contract row.
pub open spec fn entry_row_check(e: FixtureManifestEntry, row: ContractRow) -> Result<
    (),
    CodecDiagnosticView,
> {
    then_check(
        compare_check(
            "manifest fixture ID"@,
            "$.fixtures[].fixture_id"@,
            e.fixture_id@,
            expected_fixture_id_text(e.contract_row_id@),
            "IR_FIXTURE_ID_DRIFT"@,
        ),
        then_check(
            compare_check(
                "manifest serialized artifact path"@,
                "$.fixtures[].serialized_artifact_path"@,
                e.serialized_artifact_path@,
                expected_path_text(e.contract_row_id@),
                "IR_FIXTURE_PATH_DRIFT"@,
            ),
            then_check(
                compare_check(
                    "manifest surface"@,
                    "$.fixtures[].surface"@,
                    e.surface@,
                    row.surface@,
                    "IR_CONTRACT_DRIFT"@,
                ),
                then_check(
                    compare_list_check(
                        "manifest fixture tags"@,
                        "$.fixtures[].fixture_tags"@,
                        texts(e.fixture_tags@),
                        texts(row.fixture_tags@),
                    ),
                    then_check(
                        compare_list_check(
                            "manifest platform targets"@,
                            "$.fixtures[].platform_targets"@,
                            texts(e.platform_targets@),
                            texts(row.platform_targets@),
                        ),
                        then_check(
                            compare_list_check(
                                "manifest owner PRs"@,
                                "$.fixtures[].owner_prs"@,
                                texts(e.owner_prs@),
                                texts(row.owner_prs@),
                            ),
                            compare_list_check(
                                "manifest proof PRs"@,
                                "$.fixtures[].proof_prs"@,
                                texts(e.proof_prs@),
                                texts(row.proof_prs@),
                            ),
                        ),
                    ),
                ),
            ),
        ),
    )
}

/// The checks of the manifest entries from `i` on, in order.
pub open spec fn entries_check(entries: Seq<FixtureManifestEntry>, rows: Seq<ContractRow>, i: int) -> Result<
    (),
    CodecDiagnosticView,
>
    decreases entries.len() - i,
{
    if i < 0 || i >= entries.len() {
        Ok(())
    } else {
        then_check(entry_check(entries, i, rows), entries_check(entries, rows, i + 1))
    }
}

/// The checks of a fixture manifest against the contract: the rows can be
/// keyed by ID, there is one entry per row, and each entry passes its checks.
pub open spec fn manifest_contract_check(manifest: FixtureManifest, contract: ContractDocument) -> Result<
    (),
    CodecDiagnosticView,
> {
    then_check(
        unique_rows_check(contract.rows@),
        if manifest.fixtures@.len() != contract.rows@.len() {
            Err(
                codec_error(
                    "IR_FIXTURE_COUNT_DRIFT"@,
                    "$.fixtures"@,
                    "fixture count drift: "@ + decimal(manifest.fixtures@.len()) + " != "@
                        + decimal(contract.rows@.len()),
                ),
            )
        } else {
            entries_check(manifest.fixtures@, contract.rows@, 0)
        },
    )
}

/// A manifest covers the contract when its entries name every contract row
/// exactly once, with the row's fixture tags: the (row, tag) pairs of the
/// entries are then exactly those of the contract.
pub open spec fn covers_contract(entries: Seq<FixtureManifestEntry>, rows: Seq<ContractRow>) -> bool {
    &&& entries.len() == rows.len()
    &&& entry_row_ids(entries).no_duplicates()
    &&& row_ids(rows).no_duplicates()
    &&& forall|k: int| 0 <= k < rows.len() ==> #[trigger] entry_row_ids(entries).contains(rows[k].id@)
    &&& forall|i: int|
        0 <= i < entries.len() ==> {
            &&& #[trigger] find_row(rows, entries[i].contract_row_id@) is Some
            &&& texts(entries[i].fixture_tags@) == texts(
                find_row(rows, entries[i].contract_row_id@)->0.fixture_tags@,
            )
        }
}

proof fn lemma_find_row(rows: Seq<ContractRow>, id: Seq<char>)
    ensures
        find_row(rows, id) is Some <==> row_ids(rows).contains(id),
        find_row(rows, id) matches Some(row) ==> row.id@ == id && rows.contains(row),
    decreases rows.len(),
{
    if rows.len() > 0 {
        lemma_find_row(rows.drop_first(), id);
        assert(row_ids(rows.drop_first()) =~= row_ids(rows).drop_first());
        if rows[0].id@ != id {
            if row_ids(rows).contains(id) {
                let k = choose|k: int| 0 <= k < row_ids(rows).len() && row_ids(rows)[k] == id;
                assert(k > 0);
                assert(row_ids(rows.drop_first())[k - 1] == id);
            }
            if let Some(row) = find_row(rows.drop_first(), id) {
                let k = choose|k: int| 0 <= k < rows.drop_first().len() && rows.drop_first()[k] == row;
                assert(rows[k + 1] == row);
            }
        } else {
            assert(row_ids(rows)[0] == id);
            assert(rows[0] == rows[0]);
        }
    }
}

proof fn lemma_entries_check_ok(entries: Seq<FixtureManifestEntry>, rows: Seq<ContractRow>, i: int)
    requires
        0 <= i <= entries.len(),
        entries_check(entries, rows, i) is Ok,
    ensures
        forall|j: int| i <= j < entries.len() ==> #[trigger] entry_check(entries, j, rows) is Ok,
    decreases entries.len() - i,
{
    if i < entries.len() {
        lemma_entries_check_ok(entries, rows, i + 1);
    }
}

proof fn lemma_accepted_manifest_covers(entries: Seq<FixtureManifestEntry>, rows: Seq<ContractRow>)
    requires
        entries.len() == rows.len(),
        row_ids(rows).no_duplicates(),
        forall|j: int| 0 <= j < entries.len() ==> #[trigger] entry_check(entries, j, rows) is Ok,
    ensures
        covers_contract(entries, rows),
{
    let eids = entry_row_ids(entries);
    let rids = row_ids(rows);
    assert forall|i: int| 0 <= i < entries.len() implies {
        &&& #[trigger] find_row(rows, entries[i].contract_row_id@) is Some
        &&& texts(entries[i].fixture_tags@) == texts(
            find_row(rows, entries[i].contract_row_id@)->0.fixture_tags@,
        )
    } by {
        assert(entry_check(entries, i, rows) is Ok);
        lemma_find_row(rows, entries[i].contract_row_id@);
    }
    assert forall|i: int, j: int|
        0 <= i < eids.len() && 0 <= j < eids.len() && i != j implies eids[i] != eids[j] by {
        let (lo, hi) = if i < j {
            (i, j)
        } else {
            (j, i)
        };
        assert(entry_row_ids(entries.take(hi))[lo] == eids[lo]);
        assert(entry_check(entries, hi, rows) is Ok);
        assert(eids[hi] == entries[hi].contract_row_id@);
        if eids[lo] == eids[hi] {
            assert(entry_row_ids(entries.take(hi)).contains(entries[hi].contract_row_id@));
        }
    }
    assert(eids.no_duplicates());
    eids.unique_seq_to_set();
    rids.unique_seq_to_set();
    assert(eids.to_set().subset_of(rids.to_set())) by {
        assert forall|x: Seq<char>| eids.to_set().contains(x) implies rids.to_set().contains(x) by {
            let i = choose|i: int| 0 <= i < eids.len() && eids[i] == x;
            assert(entry_check(entries, i, rows) is Ok);
            lemma_find_row(rows, entries[i].contract_row_id@);
            assert(rids.contains(eids[i]));
        }
    }
    vstd::set_lib::lemma_subset_equality(eids.to_set(), rids.to_set());
    assert forall|k: int| 0 <= k < rows.len() implies #[trigger] eids.contains(rows[k].id@) by {
        assert(rids[k] == rows[k].id@);
        assert(rids.to_set().contains(rows[k].id@));
        assert(eids.to_set().contains(rows[k].id@));
    }
}

/// An entry matches a contract row when it carries the fixture ID, artifact
/// path, surface, fixture tags, platform targets and PRs that follow from the
/// row.
pub open spec fn entry_matches_row(e: FixtureManifestEntry, row: ContractRow) -> bool {
    &&& e.fixture_id@ == expected_fixture_id_text(row.id@)
    &&& e.serialized_artifact_path@ == expected_path_text(row.id@)
    &&& e.surface@ == row.surface@
    &&& texts(e.fixture_tags@) == texts(row.fixture_tags@)
    &&& texts(e.platform_targets@) == texts(row.platform_targets@)
    &&& texts(e.owner_prs@) == texts(row.owner_prs@)
    &&& texts(e.proof_prs@) == texts(row.proof_prs@)
}

/// A manifest matches the contract when the row IDs are distinct, the
/// fixture IDs are distinct, naming its contract row is a bijection from the
/// entries onto the rows, and every entry matches its row.
pub open spec fn manifest_matches_contract(entries: Seq<FixtureManifestEntry>, rows: Seq<ContractRow>) -> bool {
    &&& row_ids(rows).no_duplicates()
    &&& entry_fixture_ids(entries).no_duplicates()
    &&& entries.len() == rows.len()
    &&& entry_row_ids(entries).no_duplicates()
    &&& forall|k: int| 0 <= k < rows.len() ==> #[trigger] entry_row_ids(entries).contains(rows[k].id@)
    &&& forall|i: int|
        0 <= i < entries.len() ==> {
            &&& #[trigger] find_row(rows, entries[i].contract_row_id@) is Some
            &&& entry_matches_row(entries[i], find_row(rows, entries[i].contract_row_id@)->0)
        }
}

proof fn lemma_entries_check_from_each(entries: Seq<FixtureManifestEntry>, rows: Seq<ContractRow>, i: int)
    requires
        0 <= i <= entries.len(),
        forall|j: int| i <= j < entries.len() ==> #[trigger] entry_check(entries, j, rows) is Ok,
    ensures
        entries_check(entries, rows, i) is Ok,
    decreases entries.len() - i,
{
    if i < entries.len() {
        lemma_entries_check_from_each(entries, rows, i + 1);
        assert(entry_check(entries, i, rows) is Ok);
    }
}

proof fn lemma_prior_ids(entries: Seq<FixtureManifestEntry>, j: int)
    requires
        0 <= j <= entries.len(),
    ensures
        entry_fixture_ids(entries.take(j)) == entry_fixture_ids(entries).take(j),
        entry_row_ids(entries.take(j)) == entry_row_ids(entries).take(j),
{
    assert(entry_fixture_ids(entries.take(j)) =~= entry_fixture_ids(entries).take(j));
    assert(entry_row_ids(entries.take(j)) =~= entry_row_ids(entries).take(j));
}

/// A fixture manifest is accepted against the contract exactly when it
/// matches the contract: distinct row IDs, distinct fixture IDs, one entry
/// per row and one row per entry, and every entry carrying what its row
/// determines.
pub proof fn lemma_manifest_accepted_iff_matches(manifest: FixtureManifest, contract: ContractDocument)
    ensures
        manifest_contract_check(manifest, contract) is Ok <==> manifest_matches_contract(
            manifest.fixtures@,
            contract.rows@,
        ),
{
    let entries = manifest.fixtures@;
    let rows = contract.rows@;
    let fids = entry_fixture_ids(entries);
    let eids = entry_row_ids(entries);
    if manifest_contract_check(manifest, contract) is Ok {
        lemma_entries_check_ok(entries, rows, 0);
        lemma_accepted_manifest_covers(entries, rows);
        assert forall|i: int| 0 <= i < entries.len() implies {
            &&& #[trigger] find_row(rows, entries[i].contract_row_id@) is Some
            &&& entry_matches_row(entries[i], find_row(rows, entries[i].contract_row_id@)->0)
        } by {
            assert(entry_check(entries, i, rows) is Ok);
            lemma_find_row(rows, entries[i].contract_row_id@);
        }
        assert forall|i: int, j: int|
            0 <= i < fids.len() && 0 <= j < fids.len() && i != j implies fids[i] != fids[j] by {
            let (lo, hi) = if i < j {
                (i, j)
            } else {
                (j, i)
            };
            lemma_prior_ids(entries, hi);
            assert(entry_check(entries, hi, rows) is Ok);
            if fids[lo] == fids[hi] {
                assert(entry_fixture_ids(entries.take(hi))[lo] == fids[lo]);
                assert(entry_fixture_ids(entries.take(hi)).contains(entries[hi].fixture_id@));
            }
        }
    }
    if manifest_matches_contract(entries, rows) {
        assert forall|j: int| 0 <= j < entries.len() implies #[trigger] entry_check(entries, j, rows) is Ok by {
            let e = entries[j];
            lemma_prior_ids(entries, j);
            lemma_find_row(rows, e.contract_row_id@);
            if entry_fixture_ids(entries.take(j)).contains(e.fixture_id@) {
                let k = choose|k: int| 0 <= k < j && entry_fixture_ids(entries.take(j))[k] == e.fixture_id@;
                assert(fids[k] == fids[j]);
            }
            if entry_row_ids(entries.take(j)).contains(e.contract_row_id@) {
                let k = choose|k: int| 0 <= k < j && entry_row_ids(entries.take(j))[k] == e.contract_row_id@;
                assert(eids[k] == eids[j]);
            }
        }
        lemma_entries_check_from_each(entries, rows, 0);
    }
}

proof fn lemma_first_repeat_at(ids: Seq<Seq<char>>, i: int, j: int)
    requires
        0 <= j < i < ids.len(),
        ids.take(i).no_duplicates(),
        ids[j] == ids[i],
    ensures
        first_repeat(ids) == i,
        !ids.no_duplicates(),
{
    assert(ids.take(i)[j] == ids[i]);
    assert(repeats_at(ids, i));
    assert forall|m: int| 0 <= m < i implies !repeats_at(ids, m) by {
        if repeats_at(ids, m) {
            let w = choose|w: int| 0 <= w < m && ids.take(m)[w] == ids[m];
            assert(ids.take(i)[w] == ids.take(i)[m]);
        }
    }
    let k = first_repeat(ids);
    assert(repeats_at(ids, k) && forall|m: int| 0 <= m < k ==> !repeats_at(ids, m));
    assert(k == i);
}

/// Checks that the contract rows can be keyed by their IDs: no ID occurs twice.
fn rows_by_id(contract: &ContractDocument) -> (r: CodecResult<()>)
    ensures
        check_outcome(r) == unique_rows_check(contract.rows@),
{
    let ghost ids = row_ids(contract.rows@);
    let mut i: usize = 0;
    while i < contract.rows.len()
        invariant
            i <= contract.rows@.len(),
            ids == row_ids(contract.rows@),
            ids.take(i as int).no_duplicates(),
        decreases contract.rows@.len() - i,
    {
        let mut j: usize = 0;
        while j < i
            invariant
                j <= i < contract.rows@.len(),
                ids == row_ids(contract.rows@),
                ids.take(i as int).no_duplicates(),
                forall|k: int| 0 <= k < j ==> ids[k] != ids[i as int],
            decreases i - j,
        {
            if contract.rows[j].id == contract.rows[i].id {
                proof {
                    lemma_first_repeat_at(ids, i as int, j as int);
                }
                let mut message = owned("duplicate contract row ");
                message.append(contract.rows[i].id.as_str());
                return Err(CodecDiagnostic::error("IR_CONTRACT_ROW_DUPLICATE", "$.rows[].id", message));
            }
            j = j + 1;
        }
        proof {
            let ghost next = ids.take(i + 1);
            assert forall|a: int, b: int|
                0 <= a < i + 1 && 0 <= b < i + 1 && a != b implies #[trigger] next[a]
                    != #[trigger] next[b] by {
                if a < i && b < i {
                    assert(ids.take(i as int)[a] == ids.take(i + 1)[a]);
                    assert(ids.take(i as int)[b] == ids.take(i + 1)[b]);
                }
            }
        }
        i = i + 1;
    }
    assert(ids.take(contract.rows@.len() as int) =~= ids);
    Ok(())
}

fn prior_has_fixture_id(entries: &[FixtureManifestEntry], upto: usize, id: &str) -> (r: bool)
    requires
        upto <= entries@.len(),
    ensures
        r == entry_fixture_ids(entries@.take(upto as int)).contains(id@),
{
    let ghost prior = entry_fixture_ids(entries@.take(upto as int));
    let mut j: usize = 0;
    while j < upto
        invariant
            j <= upto <= entries@.len(),
            prior == entry_fixture_ids(entries@.take(upto as int)),
            forall|k: int| 0 <= k < j ==> prior[k] != id@,
        decreases upto - j,
    {
        if crate::text::same_text(entries[j].fixture_id.as_str(), id) {
            assert(prior[j as int] == id@);
            return true;
        }
        j = j + 1;
    }
    false
}

fn prior_has_row_id(entries: &[FixtureManifestEntry], upto: usize, id: &str) -> (r: bool)
    requires
        upto <= entries@.len(),
    ensures
        r == entry_row_ids(entries@.take(upto as int)).contains(id@),
{
    let ghost prior = entry_row_ids(entries@.take(upto as int));
    let mut j: usize = 0;
    while j < upto
        invariant
            j <= upto <= entries@.len(),
            prior == entry_row_ids(entries@.take(upto as int)),
            forall|k: int| 0 <= k < j ==> prior[k] != id@,
        decreases upto - j,
    {
        if crate::text::same_text(entries[j].contract_row_id.as_str(), id) {
            assert(prior[j as int] == id@);
            return true;
        }
        j = j + 1;
    }
    false
}

fn check_entry(entries: &[FixtureManifestEntry], i: usize, contract: &ContractDocument) -> (r:
    CodecResult<()>)
    requires
        i < entries@.len(),
    ensures
        check_outcome(r) == entry_check(entries@, i as int, contract.rows@),
{
    let entry = &entries[i];
    if prior_has_fixture_id(entries, i, entry.fixture_id.as_str()) {
        let mut message = owned("duplicate fixture ID ");
        message.append(entry.fixture_id.as_str());
        return Err(
            CodecDiagnostic::error("IR_FIXTURE_ID_DUPLICATE", "$.fixtures[].fixture_id", message),
        );
    }
    let row = match contract_row(contract, entry.contract_row_id.as_str()) {
        Ok(row) => row,
        Err(_) => {
            let mut message = owned("unknown contract row ");
            message.append(entry.contract_row_id.as_str());
            return Err(
                CodecDiagnostic::error(
                    "IR_CONTRACT_ROW_MISSING",
                    "$.fixtures[].contract_row_id",
                    message,
                ),
            );
        },
    };
    if prior_has_row_id(entries, i, entry.contract_row_id.as_str()) {
        let mut message = owned("duplicate fixture contract row ");
        message.append(entry.contract_row_id.as_str());
        return Err(
            CodecDiagnostic::error(
                "IR_FIXTURE_CONTRACT_ROW_DUPLICATE",
                "$.fixtures[].contract_row_id",
                message,
            ),
        );
    }
    let expected_id = expected_fixture_id(entry.contract_row_id.as_str());
    let r = compare_with_code(
        "manifest fixture ID",
        "$.fixtures[].fixture_id",
        entry.fixture_id.as_str(),
        expected_id.as_str(),
        "IR_FIXTURE_ID_DRIFT",
    );
    if r.is_err() {
        return r;
    }
    let expected_path = expected_serialized_artifact_path(entry.contract_row_id.as_str());
    let r = compare_with_code(
        "manifest serialized artifact path",
        "$.fixtures[].serialized_artifact_path",
        entry.serialized_artifact_path.as_str(),
        expected_path.as_str(),
        "IR_FIXTURE_PATH_DRIFT",
    );
    if r.is_err() {
        return r;
    }
    let r = compare("manifest surface", "$.fixtures[].surface", entry.surface.as_str(), row.surface.as_str());
    if r.is_err() {
        return r;
    }
    let r = compare_vec(
        "manifest fixture tags",
        "$.fixtures[].fixture_tags",
        &entry.fixture_tags,
        &row.fixture_tags,
    );
    if r.is_err() {
        return r;
    }
    let r = compare_vec(
        "manifest platform targets",
        "$.fixtures[].platform_targets",
        &entry.platform_targets,
        &row.platform_targets,
    );
    if r.is_err() {
        return r;
    }
    let r = compare_vec(
        "manifest owner PRs",
        "$.fixtures[].owner_prs",
        &entry.owner_prs,
        &row.owner_prs,
    );
    if r.is_err() {
        return r;
    }
    compare_vec("manifest proof PRs", "$.fixtures[].proof_prs", &entry.proof_prs, &row.proof_prs)
}

/// Checks a fixture manifest against the contract: the contract rows have
/// distinct IDs, there are as many entries as rows, and each entry, in order,
/// has a fixture ID and a contract row that no earlier entry has, names a row
/// of the contract, and carries the fixture ID, artifact path, surface, tags,
/// targets and PRs that follow from that row.  An accepted manifest covers
/// every contract row exactly once, with the row's fixture tags.
pub fn validate_manifest_against_contract(manifest: &FixtureManifest, contract: &ContractDocument) -> (r:
    CodecResult<()>)
    ensures
        check_outcome(r) == manifest_contract_check(*manifest, *contract),
        r is Ok <==> manifest_matches_contract(manifest.fixtures@, contract.rows@),
        r is Ok ==> covers_contract(manifest.fixtures@, contract.rows@),
{
    let r = check_manifest(manifest, contract);
    proof {
        lemma_manifest_accepted_iff_matches(*manifest, *contract);
    }
    r
}

fn check_manifest(manifest: &FixtureManifest, contract: &ContractDocument) -> (r: CodecResult<()>)
    ensures
        check_outcome(r) == manifest_contract_check(*manifest, *contract),
        r is Ok ==> covers_contract(manifest.fixtures@, contract.rows@),
{
    let r = rows_by_id(contract);
    if r.is_err() {
        return r;
    }
    if manifest.fixtures.len() != contract.rows.len() {
        let mut message = owned("fixture count drift: ");
        push_decimal(&mut message, manifest.fixtures.len() as u64);
        message.append(" != ");
        push_decimal(&mut message, contract.rows.len() as u64);
        return Err(CodecDiagnostic::error("IR_FIXTURE_COUNT_DRIFT", "$.fixtures", message));
    }
    let ghost all = manifest.fixtures@;
    let ghost rows = contract.rows@;
    let mut i: usize = 0;
    while i < manifest.fixtures.len()
        invariant
            i <= all.len(),
            all == manifest.fixtures@,
            rows == contract.rows@,
            manifest_contract_check(*manifest, *contract) == entries_check(all, rows, i as int),
            entries_check(all, rows, 0) == entries_check(all, rows, i as int),
        decreases all.len() - i,
    {
        let r = check_entry(&manifest.fixtures, i, contract);
        if r.is_err() {
            return r;
        }
        i = i + 1;
    }
    proof {
        lemma_entries_check_ok(all, rows, 0);
        lemma_accepted_manifest_covers(all, rows);
    }
    Ok(())
}

/// The diagnostic that an invalid fixture expects.
pub fn diagnostic_for_invalid_fixture(fixture: &InvalidFixture) -> (r: CodecDiagnostic)
    ensures
        r@ == (CodecDiagnosticView {
            code: fixture.expected_diagnostic.code@,
            path: fixture.expected_diagnostic.path@,
            severity: fixture.expected_diagnostic.severity,
            message: "invalid fixture covers "@ + fixture.diagnostic_family@,
        }),
{
    let mut message = owned("invalid fixture covers ");
    message.append(fixture.diagnostic_family.as_str());
    CodecDiagnostic {
        code: fixture.expected_diagnostic.code.clone(),
        path: fixture.expected_diagnostic.path.clone(),
        severity: fixture.expected_diagnostic.severity,
        message,
    }
}

/// An invalid fixture always fails, with the diagnostic it expects.
pub fn validate_invalid_fixture(fixture: &InvalidFixture) -> (r: CodecResult<()>)
    ensures
        r matches Err(d) && d@ == (CodecDiagnosticView {
            code: fixture.expected_diagnostic.code@,
            path: fixture.expected_diagnostic.path@,
            severity: fixture.expected_diagnostic.severity,
            message: "invalid fixture covers "@ + fixture.diagnostic_family@,
        }),
{
    Err(diagnostic_for_invalid_fixture(fixture))
}

} // verus!
