//! The display decisions the renderer needs: section headings, the one-letter
//! row markers, and the comma-joined feature list.  Laying the rows out and
//! printing them happen outside the library.

use vstd::prelude::*;
use vstd::string::StringExecFns;
use crate::records::string_seq_view;
use crate::tables::TableKind;

verus! {

/// The heading printed above a table's section, which for an empty table is
/// its "no records" line.
///
/// The update log reuses the experiments wording, filled-in and empty alike:
/// that is the tool's long-standing output, kept on purpose.
pub open spec fn spec_section_heading(table: TableKind, is_empty: bool) -> Seq<char> {
    match table {
        TableKind::Enrollments => if is_empty {
            "No enrollments"@
        } else {
            "Enrollments:"@
        },
        TableKind::Experiments => if is_empty {
            "No experiments"@
        } else {
            "Experiments:"@
        },
        TableKind::Updates => if is_empty {
            "No experiments"@
        } else {
            "Experiments:"@
        },
    }
}

pub fn section_heading(table: TableKind, is_empty: bool) -> (r: &'static str)
    ensures
        r@ == spec_section_heading(table, is_empty),
{
    match table {
        TableKind::Enrollments => if is_empty {
            "No enrollments"
        } else {
            "Enrollments:"
        },
        TableKind::Experiments => if is_empty {
            "No experiments"
        } else {
            "Experiments:"
        },
        TableKind::Updates => if is_empty {
            "No experiments"
        } else {
            "Experiments:"
        },
    }
}

/// The rollout/experiment column: `R` marks a rollout, `E` a controlled
/// experiment.
pub open spec fn spec_rollout_marker(is_rollout: bool) -> Seq<char> {
    if is_rollout {
        "R"@
    } else {
        "E"@
    }
}

pub fn rollout_marker(is_rollout: bool) -> (r: &'static str)
    ensures
        r@ == spec_rollout_marker(is_rollout),
{
    if is_rollout {
        "R"
    } else {
        "E"
    }
}

/// The paused column: `Y` when enrollment is paused, blank otherwise.
pub open spec fn spec_paused_marker(is_paused: bool) -> Seq<char> {
    if is_paused {
        "Y"@
    } else {
        " "@
    }
}

pub fn paused_marker(is_paused: bool) -> (r: &'static str)
    ensures
        r@ == spec_paused_marker(is_paused),
{
    if is_paused {
        "Y"
    } else {
        " "
    }
}

/// The texts of a list joined with single commas, in order.
pub open spec fn spec_join_commas(s: Seq<Seq<char>>) -> Seq<char>
    decreases s.len(),
{
    if s.len() == 0 {
        Seq::empty()
    } else if s.len() == 1 {
        s[0]
    } else {
        spec_join_commas(s.drop_last()) + ","@ + s.last()
    }
}

/// Joins a feature-identifier list for display, preserving its order.
pub fn join_feature_ids(ids: &Vec<String>) -> (r: String)
    ensures
        r@ == spec_join_commas(string_seq_view(ids@)),
{
    let mut out = String::new();
    let n = ids.len();
    let mut i: usize = 0;
    while i < n
        invariant
            0 <= i <= n,
            n == ids@.len(),
            out@ == spec_join_commas(string_seq_view(ids@).take(i as int)),
        decreases n - i,
    {
        if i > 0 {
            out.append(",");
        }
        out.append(ids[i].as_str());
        proof {
            let sv = string_seq_view(ids@);
            assert(sv.take(i as int + 1).last() == sv[i as int]);
            if i == 0 {
                assert(sv.take(1).len() == 1);
                assert(sv.take(1)[0] == sv[0]);
            } else {
                assert(sv.take(i as int + 1).drop_last() =~= sv.take(i as int));
            }
        }
        i = i + 1;
    }
    proof {
        assert(string_seq_view(ids@).take(n as int) =~= string_seq_view(ids@));
    }
    out
}

} // verus!
