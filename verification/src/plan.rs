//! The plan document: a checklist of steps with a progress section.

use crate::edit::{replace_all, replaced};
use crate::text::{
    contains, decimal, format_usize, from_chars, join, joined, lines_of, occurs_in, slices,
    split_lines, texts, to_chars,
};
use vstd::prelude::*;

verus! {

/// The checklist line of step `number`.
pub open spec fn step_line(number: nat, step: Seq<char>) -> Seq<char> {
    "- [ ] Step "@ + decimal(number) + ": "@ + step + "\n"@
}

/// The checklist: one line for each step, numbered from one.
pub open spec fn checklist(steps: Seq<Seq<char>>) -> Seq<char>
    decreases steps.len(),
{
    if steps.len() == 0 {
        Seq::empty()
    } else {
        checklist(steps.drop_last()) + step_line(steps.len(), steps.last())
    }
}

/// The heading of a plan for `task`.
pub open spec fn plan_heading(task: Seq<char>) -> Seq<char> {
    "# Task Plan: "@ + task + "\n\n## Checklist:\n\n"@
}

/// The progress section of a new plan.
pub open spec fn plan_footer() -> Seq<char> {
    "\n## Progress:\n- Total Steps: 0\n- Completed: 0\n- Remaining: 0\n"@
}

/// The document of a new plan: a heading with the task, the checklist with
/// every step open, and a progress section that counts nothing yet.
pub open spec fn plan_document(task: Seq<char>, steps: Seq<Seq<char>>) -> Seq<char> {
    plan_heading(task) + checklist(steps) + plan_footer()
}

/// What is reported once a plan has been written.
pub open spec fn plan_created(task: Seq<char>, steps: nat) -> Seq<char> {
    "Created plan.md with "@ + decimal(steps) + " steps for task: "@ + task
}

/// Builds the document of a new plan.
pub fn new_plan(task: &str, steps: &Vec<String>) -> (r: String)
    ensures
        r@ == plan_document(task@, texts(steps@)),
{
    let mut list = String::new();
    let mut i: usize = 0;
    let ghost all = texts(steps@);
    assert(all.take(0) =~= Seq::<Seq<char>>::empty());
    while i < steps.len()
        invariant
            i <= steps.len(),
            all == texts(steps@),
            list@ == checklist(all.take(i as int)),
        decreases steps.len() - i,
    {
        proof {
            let next = all.take(i + 1);
            assert(next.drop_last() =~= all.take(i as int));
            assert(next.last() == steps@[i as int]@);
        }
        let ghost before = list@;
        list.append("- [ ] Step ");
        list.append(format_usize(i + 1).as_str());
        list.append(": ");
        list.append(steps[i].as_str());
        list.append("\n");
        assert(list@ =~= before + step_line((i + 1) as nat, steps@[i as int]@));
        i += 1;
    }
    assert(all.take(steps.len() as int) =~= all);
    let mut r = String::from_str("# Task Plan: ");
    r.append(task);
    r.append("\n\n## Checklist:\n\n");
    r.append(list.as_str());
    r.append("\n## Progress:\n- Total Steps: 0\n- Completed: 0\n- Remaining: 0\n");
    r
}

/// The report of a plan that has been written.
pub fn plan_created_report(task: &str, steps: usize) -> (r: String)
    ensures
        r@ == plan_created(task@, steps as nat),
{
    let mut r = String::from_str("Created plan.md with ");
    r.append(format_usize(steps).as_str());
    r.append(" steps for task: ");
    r.append(task);
    r
}

/// The text by which a line names step `number`.
pub open spec fn step_tag(number: nat) -> Seq<char> {
    "Step "@ + decimal(number) + ":"@
}

/// A line of the plan after step `number` has been completed: on a line
/// that names the step, open boxes become ticked ones.
pub open spec fn ticked(line: Seq<char>, number: nat) -> Seq<char> {
    if occurs_in(line, step_tag(number)) {
        replaced(line, "- [ ]"@, "- [x]"@)
    } else {
        line
    }
}

/// Number of lines that hold `needle`.
pub open spec fn lines_with(lines: Seq<Seq<char>>, needle: Seq<char>) -> nat
    decreases lines.len(),
{
    if lines.len() == 0 {
        0
    } else {
        lines_with(lines.drop_last(), needle) + if occurs_in(lines.last(), needle) {
            1nat
        } else {
            0nat
        }
    }
}

/// A line of the plan with the progress counts written in: the lines of the
/// progress section are written anew, any other line stays.
pub open spec fn counted(line: Seq<char>, total: nat, completed: nat) -> Seq<char> {
    if occurs_in(line, "Total Steps:"@) {
        "- Total Steps: "@ + decimal(total)
    } else if occurs_in(line, "Completed:"@) {
        "- Completed: "@ + decimal(completed)
    } else if occurs_in(line, "Remaining:"@) {
        "- Remaining: "@ + decimal(
            if total >= completed {
                (total - completed) as nat
            } else {
                0
            },
        )
    } else {
        line
    }
}

/// The lines of a plan after step `number` has been completed.
pub open spec fn ticked_lines(content: Seq<char>, number: nat) -> Seq<Seq<char>> {
    lines_of(content).map_values(|line: Seq<char>| ticked(line, number))
}

/// How many lines of the plan name a step, once step `number` is completed.
pub open spec fn total_steps(content: Seq<char>, number: nat) -> nat {
    lines_with(ticked_lines(content, number), "Step "@)
}

/// How many lines of the plan hold a ticked box, once step `number` is
/// completed.
pub open spec fn completed_steps(content: Seq<char>, number: nat) -> nat {
    lines_with(ticked_lines(content, number), "- [x]"@)
}

/// The document of a plan after step `number` has been completed: the
/// step's line is ticked and the progress section counts anew. Lines are
/// joined by line feeds; the document does not end in one.
pub open spec fn updated_plan(content: Seq<char>, number: nat) -> Seq<char> {
    joined(
        ticked_lines(content, number).map_values(
            |line: Seq<char>|
                counted(line, total_steps(content, number), completed_steps(content, number)),
        ),
        "\n"@,
    )
}

/// What is reported once a plan has been updated.
pub open spec fn plan_updated(number: nat, completed: nat, total: nat) -> Seq<char> {
    "Updated plan.md: Step "@ + decimal(number) + " completed. Progress: "@ + decimal(completed)
        + "/"@ + decimal(total)
}

fn count_lines_with(lines: &Vec<Vec<char>>, needle: &str) -> (r: usize)
    ensures
        r == lines_with(lines@.map_values(|l: Vec<char>| l@), needle@),
{
    let word = to_chars(needle);
    let ghost all = lines@.map_values(|l: Vec<char>| l@);
    let mut n: usize = 0;
    let mut i: usize = 0;
    assert(all.take(0) =~= Seq::<Seq<char>>::empty());
    while i < lines.len()
        invariant
            i <= lines.len(),
            all == lines@.map_values(|l: Vec<char>| l@),
            word@ == needle@,
            n == lines_with(all.take(i as int), needle@),
            n <= i,
        decreases lines.len() - i,
    {
        proof {
            let next = all.take(i + 1);
            assert(next.drop_last() =~= all.take(i as int));
            assert(next.last() == lines@[i as int]@);
        }
        if contains(lines[i].as_slice(), word.as_slice()) {
            n += 1;
        }
        i += 1;
    }
    assert(all.take(lines.len() as int) =~= all);
    n
}

fn labelled(head: &str, n: usize) -> (r: String)
    ensures
        r@ == head@ + decimal(n as nat),
{
    let mut r = String::from_str(head);
    r.append(format_usize(n).as_str());
    r
}

/// Completes step `number` in the document `content` of a plan. Returns the
/// new document and the report.
pub fn complete_step(content: &str, number: usize) -> (r: (String, String))
    ensures
        r.0@ == updated_plan(content@, number as nat),
        r.1@ == plan_updated(
            number as nat,
            completed_steps(content@, number as nat),
            total_steps(content@, number as nat),
        ),
{
    let chars = to_chars(content);
    let lines = split_lines(chars.as_slice());
    let tag_text = {
        let mut t = String::from_str("Step ");
        t.append(format_usize(number).as_str());
        t.append(":");
        t
    };
    let tag = to_chars(tag_text.as_str());
    let open_box = to_chars("- [ ]");
    let ticked_box = to_chars("- [x]");
    let ghost source = slices(lines@);
    let mut marked: Vec<Vec<char>> = Vec::new();
    let mut i: usize = 0;
    while i < lines.len()
        invariant
            i <= lines.len(),
            source == slices(lines@),
            source == lines_of(content@),
            tag@ == step_tag(number as nat),
            open_box@ == "- [ ]"@,
            ticked_box@ == "- [x]"@,
            marked.len() == i,
            forall|j: int|
                0 <= j < i ==> (#[trigger] marked@[j])@ == ticked(source[j], number as nat),
        decreases lines.len() - i,
    {
        let line = lines[i];
        assert(source[i as int] == line@);
        if contains(line, tag.as_slice()) {
            marked.push(replace_all(line, open_box.as_slice(), ticked_box.as_slice()));
        } else {
            let mut copy: Vec<char> = Vec::new();
            let mut k: usize = 0;
            while k < line.len()
                invariant
                    k <= line.len(),
                    copy@ == line@.take(k as int),
                decreases line.len() - k,
            {
                copy.push(line[k]);
                k += 1;
            }
            assert(line@.take(line.len() as int) =~= line@);
            marked.push(copy);
        }
        i += 1;
    }
    let ghost marked_lines = marked@.map_values(|l: Vec<char>| l@);
    assert(marked_lines =~= ticked_lines(content@, number as nat));
    let total = count_lines_with(&marked, "Step ");
    let completed = count_lines_with(&marked, "- [x]");
    let total_word = to_chars("Total Steps:");
    let completed_word = to_chars("Completed:");
    let remaining_word = to_chars("Remaining:");
    let remaining: usize = if total >= completed {
        total - completed
    } else {
        0
    };
    let mut out: Vec<String> = Vec::new();
    let mut j: usize = 0;
    while j < marked.len()
        invariant
            j <= marked.len(),
            marked_lines == marked@.map_values(|l: Vec<char>| l@),
            total_word@ == "Total Steps:"@,
            completed_word@ == "Completed:"@,
            remaining_word@ == "Remaining:"@,
            remaining == if total >= completed {
                total - completed
            } else {
                0
            },
            out.len() == j,
            forall|k: int|
                0 <= k < j ==> (#[trigger] out@[k])@ == counted(
                    marked_lines[k],
                    total as nat,
                    completed as nat,
                ),
        decreases marked.len() - j,
    {
        let line = marked[j].as_slice();
        assert(marked_lines[j as int] == line@);
        let new_line = if contains(line, total_word.as_slice()) {
            labelled("- Total Steps: ", total)
        } else if contains(line, completed_word.as_slice()) {
            labelled("- Completed: ", completed)
        } else if contains(line, remaining_word.as_slice()) {
            labelled("- Remaining: ", remaining)
        } else {
            from_chars(line)
        };
        out.push(new_line);
        j += 1;
    }
    assert(texts(out@) =~= marked_lines.map_values(
        |line: Seq<char>| counted(line, total as nat, completed as nat),
    ));
    let document = join(&out, "\n");
    let mut report = String::from_str("Updated plan.md: Step ");
    report.append(format_usize(number).as_str());
    report.append(" completed. Progress: ");
    report.append(format_usize(completed).as_str());
    report.append("/");
    report.append(format_usize(total).as_str());
    (document, report)
}

} // verus!
