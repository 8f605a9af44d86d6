//! Coverage gate: every proposal needs an indexed unit test, and a
//! critical one a formal harness as well.

use vstd::prelude::*;
use crate::reason::DenyReason;
use crate::text::str_eq;

verus! {

/// Index of the upgrades that have a unit test.
#[derive(Clone, Debug)]
pub struct UpgradeTestIndex {
    pub upgrade_ids: Vec<String>,
}

/// Index of the upgrades that have a formal harness.
#[derive(Clone, Debug)]
pub struct KaniHarnessIndex {
    pub upgrade_ids: Vec<String>,
}

/// Whether `ids` holds the identifier `id`.
pub open spec fn indexed(ids: Seq<String>, id: Seq<char>) -> bool {
    exists|i: int| 0 <= i < ids.len() && (#[trigger] ids[i])@ == id
}

/// Verdict of the coverage gate. A missing unit test is reported before a
/// missing harness, and the harness is asked for only where the proposal
/// is critical.
pub open spec fn coverage_verdict(
    id: Seq<char>,
    critical: bool,
    tests: Seq<String>,
    harnesses: Seq<String>,
) -> Result<(), DenyReason> {
    if !indexed(tests, id) {
        Err(DenyReason::MissingUnitTest)
    } else if critical && !indexed(harnesses, id) {
        Err(DenyReason::MissingFormalHarness)
    } else {
        Ok(())
    }
}

/// Whether `ids` holds `id`.
fn holds_id(ids: &Vec<String>, id: &str) -> (r: bool)
    ensures
        r == indexed(ids@, id@),
{
    let mut i: usize = 0;
    while i < ids.len()
        invariant
            i <= ids.len(),
            forall|k: int| 0 <= k < i ==> (#[trigger] ids@[k])@ != id@,
        decreases ids.len() - i,
    {
        if str_eq(ids[i].as_str(), id) {
            return true;
        }
        i += 1;
    }
    false
}

impl UpgradeTestIndex {
    /// Whether a unit test is indexed for the upgrade.
    pub fn has_unit_test(&self, upgrade_id: &str) -> (r: bool)
        ensures
            r == indexed(self.upgrade_ids@, upgrade_id@),
    {
        holds_id(&self.upgrade_ids, upgrade_id)
    }
}

impl KaniHarnessIndex {
    /// Whether a formal harness is indexed for the upgrade.
    pub fn has_kani_harness(&self, upgrade_id: &str) -> (r: bool)
        ensures
            r == indexed(self.upgrade_ids@, upgrade_id@),
    {
        holds_id(&self.upgrade_ids, upgrade_id)
    }
}

/// Requires an indexed unit test for the upgrade.
pub fn enforce_tests_exist(index: &UpgradeTestIndex, upgrade_id: &str) -> (r: Result<
    (),
    DenyReason,
>)
    ensures
        r == (if indexed(index.upgrade_ids@, upgrade_id@) {
            Ok::<(), DenyReason>(())
        } else {
            Err::<(), _>(DenyReason::MissingUnitTest)
        }),
{
    if !index.has_unit_test(upgrade_id) {
        return Err(DenyReason::MissingUnitTest);
    }
    Ok(())
}

/// Requires an indexed formal harness for the upgrade.
pub fn enforce_kani_harness_exists(index: &KaniHarnessIndex, upgrade_id: &str) -> (r: Result<
    (),
    DenyReason,
>)
    ensures
        r == (if indexed(index.upgrade_ids@, upgrade_id@) {
            Ok::<(), DenyReason>(())
        } else {
            Err::<(), _>(DenyReason::MissingFormalHarness)
        }),
{
    if !index.has_kani_harness(upgrade_id) {
        return Err(DenyReason::MissingFormalHarness);
    }
    Ok(())
}

/// Checks the coverage of a proposal: a unit test always, a formal harness
/// where the proposal is critical.
pub fn check_coverage(
    proposal_id: &str,
    critical: bool,
    test_index: &UpgradeTestIndex,
    kani_index: &KaniHarnessIndex,
) -> (r: Result<(), DenyReason>)
    ensures
        r == coverage_verdict(
            proposal_id@,
            critical,
            test_index.upgrade_ids@,
            kani_index.upgrade_ids@,
        ),
{
    match enforce_tests_exist(test_index, proposal_id) {
        Err(e) => {
            return Err(e);
        },
        Ok(_) => {},
    }
    if critical {
        return enforce_kani_harness_exists(kani_index, proposal_id);
    }
    Ok(())
}

} // verus!
