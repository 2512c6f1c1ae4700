use vstd::prelude::*;
use vstd::string::*;

use crate::hsv::HsvThresholds;
use crate::text::{
    decimal_chars, is_white_space, lemma_decimal_chars_last, lemma_trim_clean, lemma_trim_idempotent,
    push_decimal_chars, trim_chars, trim_str,
};

verus! {

/// The colour windows the detector looks for and the names shown for them:
/// target 0 is `hsv`, target `i + 1` is `additional_hsv_targets[i]`.
#[derive(Clone, Debug)]
pub struct TargetSettings {
    pub hsv: HsvThresholds,
    pub additional_hsv_targets: Vec<HsvThresholds>,
    pub target_names: Vec<String>,
}

/// Label of target `index`: its configured name without surrounding white
/// space, or, when there is none or it is blank, "Primary target" for the
/// first target and "Target <index + 1>" for the others.
pub open spec fn spec_target_name(names: Seq<Seq<char>>, index: int) -> Seq<char> {
    if 0 <= index < names.len() && trim_chars(names[index]).len() > 0 {
        trim_chars(names[index])
    } else if index == 0 {
        "Primary target"@
    } else {
        "Target "@ + decimal_chars((index + 1) as nat)
    }
}

impl TargetSettings {
    /// The configured names as character sequences.
    pub open spec fn names_view(&self) -> Seq<Seq<char>> {
        self.target_names@.map_values(|s: String| s@)
    }

    /// Every colour window, primary first.
    pub open spec fn spec_all_hsv_targets(&self) -> Seq<HsvThresholds> {
        seq![self.hsv] + self.additional_hsv_targets@
    }

    /// Every colour window, the primary one first.
    pub fn all_hsv_targets(&self) -> (r: Vec<HsvThresholds>)
        ensures
            r@ == self.spec_all_hsv_targets(),
    {
        let mut targets: Vec<HsvThresholds> = Vec::new();
        targets.push(self.hsv);
        let n = self.additional_hsv_targets.len();
        for i in 0..n
            invariant
                n == self.additional_hsv_targets@.len(),
                targets@ == seq![self.hsv] + self.additional_hsv_targets@.take(i as int),
        {
            targets.push(self.additional_hsv_targets[i]);
            assert(self.additional_hsv_targets@.take(i + 1) =~= self.additional_hsv_targets@.take(
                i as int,
            ).push(self.additional_hsv_targets@[i as int]));
        }
        assert(self.additional_hsv_targets@.take(n as int) =~= self.additional_hsv_targets@);
        targets
    }

    /// The label shown for target `target_index`.
    pub fn target_name(&self, target_index: usize) -> (r: String)
        requires
            target_index < usize::MAX,
        ensures
            r@ == spec_target_name(self.names_view(), target_index as int),
    {
        if target_index < self.target_names.len() {
            let trimmed = trim_str(self.target_names[target_index].as_str());
            if !trimmed.is_empty() {
                return trimmed.to_owned();
            }
        }
        if target_index == 0 {
            String::from_str("Primary target")
        } else {
            let mut label = String::from_str("Target ");
            push_decimal_chars(target_index + 1, &mut label);
            label
        }
    }

    /// The normalized window of every target, in target order; the detector
    /// runs one mask per entry.
    pub open spec fn spec_detector_thresholds(&self) -> Seq<HsvThresholds> {
        self.spec_all_hsv_targets().map_values(|t: HsvThresholds| t.spec_normalized())
    }

    /// The normalized colour windows the detector keeps one state for, in
    /// target order.
    pub fn detector_thresholds(&self) -> (r: Vec<HsvThresholds>)
        ensures
            r@ == self.spec_detector_thresholds(),
            r@.len() >= 1,
            forall|i: int| 0 <= i < r@.len() ==> (#[trigger] r@[i]).is_normalized(),
    {
        let targets = self.all_hsv_targets();
        if targets.len() == 0 {
            let mut only: Vec<HsvThresholds> = Vec::new();
            only.push(HsvThresholds::default().normalized());
            return only;
        }
        let mut states: Vec<HsvThresholds> = Vec::new();
        let n = targets.len();
        for i in 0..n
            invariant
                n == targets@.len(),
                targets@ == self.spec_all_hsv_targets(),
                states@ == targets@.take(i as int).map_values(
                    |t: HsvThresholds| t.spec_normalized(),
                ),
        {
            let t = targets[i].normalized();
            states.push(t);
            assert(targets@.take(i + 1) =~= targets@.take(i as int).push(targets@[i as int]));
            assert(states@ =~= targets@.take(i + 1).map_values(
                |t: HsvThresholds| t.spec_normalized(),
            ));
        }
        assert(targets@.take(n as int) =~= targets@);
        proof {
            assert forall|i: int| 0 <= i < states@.len() implies (#[trigger] states@[i]).is_normalized() by {
                crate::hsv::lemma_normalized_idempotent(targets@[i]);
            }
        }
        states
    }
}

/// Every target gets a label that is not blank and has no white space at
/// either end.
pub proof fn lemma_target_name_clean(names: Seq<Seq<char>>, index: int)
    ensures
        spec_target_name(names, index).len() > 0,
        trim_chars(spec_target_name(names, index)) == spec_target_name(names, index),
{
    let label = spec_target_name(names, index);
    if 0 <= index < names.len() && trim_chars(names[index]).len() > 0 {
        lemma_trim_idempotent(names[index]);
    } else if index == 0 {
        reveal_strlit("Primary target");
        lemma_trim_clean(label);
    } else {
        reveal_strlit("Target ");
        let digits = decimal_chars((index + 1) as nat);
        lemma_decimal_chars_last((index + 1) as nat);
        assert(label.last() == digits.last());
        assert(label[0] == 'T');
        assert(!is_white_space(label.last()));
        lemma_trim_clean(label);
    }
}

/// Every configured name that is not blank labels its target, trimmed, the
/// last configured one included; adding a name for a later target never
/// changes the label of an earlier one; and a target without a usable name
/// gets "Primary target" or "Target <index + 1>".
pub proof fn lemma_configured_names_used(names: Seq<Seq<char>>, index: int, extra: Seq<char>)
    ensures
        0 <= index < names.len() && trim_chars(names[index]).len() > 0 ==> spec_target_name(
            names,
            index,
        ) == trim_chars(names[index]),
        0 <= index < names.len() ==> spec_target_name(names.push(extra), index)
            == spec_target_name(names, index),
        trim_chars(extra).len() > 0 ==> spec_target_name(names.push(extra), names.len() as int)
            == trim_chars(extra),
        !(0 <= index < names.len() && trim_chars(names[index]).len() > 0) ==> spec_target_name(
            names,
            index,
        ) == if index == 0 {
            "Primary target"@
        } else {
            "Target "@ + decimal_chars((index + 1) as nat)
        },
{
    if 0 <= index < names.len() {
        assert(names.push(extra)[index] == names[index]);
    }
    assert(names.push(extra)[names.len() as int] == extra);
}

} // verus!
