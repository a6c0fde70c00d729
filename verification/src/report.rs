//! What a line-oriented console prints for each round.

use vstd::prelude::*;
use vstd::string::StringExecFns;

use crate::models::{pointees, Fissure};
use crate::text::{decimal, decimal_string};
use crate::util::{grid, table, table_text};

verus! {

/// The rows of the table that lists the fissures: the headers, then one row
/// for each fissure.
pub open spec fn listing(fissures: Seq<Fissure>) -> Seq<Seq<Seq<char>>> {
    seq![Fissure::headers()] + fissures.map_values(|fissure: Fissure| fissure.row())
}

/// How many there are of how many: `(of <total>, <new_count> new)`.
pub open spec fn tally(total: nat, new_count: nat) -> Seq<char> {
    "(of "@ + decimal(total) + ", "@ + decimal(new_count) + " new)"@
}

/// What a round reports: that nothing is new; or that of what is new and old
/// nothing passes the filters; or how many pass, with their table.
pub open spec fn round_report(new_count: nat, total: nat, filtered: Seq<Fissure>) -> Seq<char> {
    if new_count == 0 {
        "No new fissures"@
    } else if filtered.len() == 0 {
        "No fissures found "@ + tally(total, new_count)
    } else {
        decimal(filtered.len()) + " New Fissure(s) "@ + tally(total, new_count) + ":\n"@
            + table_text(listing(filtered))
    }
}

fn push_tally(text: &mut String, total: usize, new_count: usize)
    ensures
        final(text)@ == old(text)@ + tally(total as nat, new_count as nat),
{
    text.append("(of ");
    text.append(decimal_string(total as u64).as_str());
    text.append(", ");
    text.append(decimal_string(new_count as u64).as_str());
    text.append(" new)");
    proof {
        assert(text@ =~= old(text)@ + tally(total as nat, new_count as nat));
    }
}

/// Reports a round in which `new_count` fissures were added to a snapshot
/// that now holds `total`, of which `filtered` pass the filters.
pub fn report(new_count: usize, total: usize, filtered: &Vec<&Fissure>) -> (text: String)
    requires
        forall|i: int| 0 <= i < filtered.len() ==> (#[trigger] filtered@[i]).expiry.wf(),
    ensures
        text@ == round_report(new_count as nat, total as nat, pointees(filtered@)),
{
    if new_count == 0 {
        String::from_str("No new fissures")
    } else if filtered.len() == 0 {
        let mut text = String::from_str("No fissures found ");
        push_tally(&mut text, total, new_count);
        text
    } else {
        let mut text = decimal_string(filtered.len() as u64);
        text.append(" New Fissure(s) ");
        push_tally(&mut text, total, new_count);
        text.append(":\n");
        // print table
        let ghost shown = pointees(filtered@);
        let mut table_data: Vec<Vec<String>> = Vec::new();
        let headers = Fissure::table_headers();
        proof {
            assert(headers@.map_values(|cell: String| cell@).len() == 6);
        }
        table_data.push(headers);
        let mut i: usize = 0;
        proof {
            assert(grid(table_data@) =~= seq![Fissure::headers()] + shown.take(0).map_values(
                |fissure: Fissure| fissure.row(),
            ));
        }
        while i < filtered.len()
            invariant
                i <= filtered.len(),
                shown == pointees(filtered@),
                forall|k: int| 0 <= k < filtered.len() ==> (#[trigger] filtered@[k]).expiry.wf(),
                grid(table_data@) == seq![Fissure::headers()] + shown.take(i as int).map_values(
                    |fissure: Fissure| fissure.row(),
                ),
                table_data@.len() == i + 1,
                forall|r: int| 0 <= r < table_data@.len() ==> (#[trigger] table_data@[r]).len() == 6,
            decreases filtered.len() - i,
        {
            let ghost before = grid(table_data@);
            let row = filtered[i].table_string();
            proof {
                assert(row@.map_values(|cell: String| cell@).len() == 6);
            }
            table_data.push(row);
            proof {
                assert(shown[i as int] == *filtered@[i as int]);
                assert(grid(table_data@) =~= before.push(shown[i as int].row()));
                assert(shown.take(i + 1).map_values(|fissure: Fissure| fissure.row())
                    =~= shown.take(i as int).map_values(|fissure: Fissure| fissure.row()).push(
                    shown[i as int].row(),
                ));
                assert(grid(table_data@) =~= seq![Fissure::headers()] + shown.take(
                    i + 1,
                ).map_values(|fissure: Fissure| fissure.row()));
            }
            i += 1;
        }
        proof {
            assert(shown.take(filtered.len() as int) =~= shown);
            assert(grid(table_data@) == listing(shown));
        }
        text.append(table(table_data).as_str());
        text
    }
}

} // verus!
