use vstd::prelude::*;

use crate::selection::{SearchResult, MAX_CANDIDATES};

verus! {

/// The human-readable length of `secs` seconds ("3m 25s"), as the duration
/// formatter renders it.
pub uninterp spec fn duration_text_of(secs: u64) -> Seq<char>;

/// Relies on `humantime::format_duration`, shown through its `Display` impl:
/// the text is a function of the number of seconds, and zero reads "0s".
#[verifier::external_body]
fn duration_text(secs: u64) -> (r: String)
    ensures
        r@ == duration_text_of(secs),
        secs == 0 ==> r@ == "0s"@,
{
    humantime::format_duration(std::time::Duration::from_secs(secs)).to_string()
}

/// The label of the control at 1-based position `n` (at most `MAX_CANDIDATES`).
pub open spec fn label_of(n: int) -> Seq<char> {
    if n == 1 {
        "1"@
    } else if n == 2 {
        "2"@
    } else if n == 3 {
        "3"@
    } else if n == 4 {
        "4"@
    } else {
        "5"@
    }
}

/// The line that presents a candidate: "2. Title (3m 25s)".
pub open spec fn choice_line_of(position: int, title: Seq<char>, duration: Seq<char>) -> Seq<
    char,
> {
    label_of(position) + ". "@ + title + " ("@ + duration + ")"@
}

/// Lines joined by line breaks.
pub open spec fn joined(lines: Seq<Seq<char>>) -> Seq<char>
    decreases lines.len(),
{
    if lines.len() == 0 {
        Seq::empty()
    } else if lines.len() == 1 {
        lines[0]
    } else {
        joined(lines.drop_last()) + "\n"@ + lines.last()
    }
}

/// One selectable control: the candidate it picks and the label it shows.
#[derive(Debug, Clone)]
pub struct ChoiceButton {
    pub custom_id: String,
    pub label: String,
}

/// The "present choices" intent: the listing text and one control per
/// candidate, in rank order.
#[derive(Debug, Clone)]
pub struct ChoicePrompt {
    pub text: String,
    pub buttons: Vec<ChoiceButton>,
}

/// Whether `r` offers `candidates`: one line per candidate with its
/// position, title and rendered length, and one control per candidate that
/// carries its path and shows its position.
pub open spec fn is_prompt_for(r: ChoicePrompt, candidates: Seq<SearchResult>) -> bool {
    &&& r.text@ == joined(
        Seq::new(
            candidates.len(),
            |i: int|
                choice_line_of(i + 1, candidates[i].title@, duration_text_of(candidates[i].duration)),
        ),
    )
    &&& r.buttons@.len() == candidates.len()
    &&& forall|i: int|
        0 <= i < candidates.len() ==> {
            &&& (#[trigger] r.buttons@[i]).custom_id@ == candidates[i].url@
            &&& r.buttons@[i].label@ == label_of(i + 1)
        }
}

fn position_label(n: usize) -> (r: &'static str)
    requires
        1 <= n <= MAX_CANDIDATES,
    ensures
        r@ == label_of(n as int),
{
    if n == 1 {
        "1"
    } else if n == 2 {
        "2"
    } else if n == 3 {
        "3"
    } else if n == 4 {
        "4"
    } else {
        "5"
    }
}

/// The line that presents the candidate at 1-based `position`, given its
/// title and its rendered length.
pub fn choice_line(position: usize, title: &String, duration: &String) -> (r: String)
    requires
        1 <= position <= MAX_CANDIDATES,
    ensures
        r@ == choice_line_of(position as int, title@, duration@),
{
    let mut line = String::from_str(position_label(position));
    line.append(". ");
    line.append(title.as_str());
    line.append(" (");
    line.append(duration.as_str());
    line.append(")");
    line
}

/// The lines joined by line breaks.
pub fn join_lines(lines: &Vec<String>) -> (r: String)
    ensures
        r@ == joined(lines@.map_values(|l: String| l@)),
{
    let mut out = String::new();
    let mut i: usize = 0;
    while i < lines.len()
        invariant
            i <= lines@.len(),
            out@ == joined(lines@.subrange(0, i as int).map_values(|l: String| l@)),
        decreases lines@.len() - i,
    {
        let ghost before = lines@.subrange(0, i as int).map_values(|l: String| l@);
        let ghost after = lines@.subrange(0, i + 1).map_values(|l: String| l@);
        assert(after.drop_last() =~= before);
        if i > 0 {
            out.append("\n");
        }
        out.append(lines[i].as_str());
        i = i + 1;
    }
    assert(lines@.subrange(0, i as int) =~= lines@);
    out
}

/// The prompt that offers `candidates`: one line per candidate with its
/// position, title and rendered length, and one control per candidate that
/// carries its path and shows its position.
pub fn choice_prompt(candidates: &Vec<SearchResult>) -> (r: ChoicePrompt)
    requires
        candidates@.len() <= MAX_CANDIDATES,
    ensures
        is_prompt_for(r, candidates@),
{
    let ghost want = Seq::new(
        candidates@.len(),
        |i: int|
            choice_line_of(
                i + 1,
                candidates@[i].title@,
                duration_text_of(candidates@[i].duration),
            ),
    );
    let mut lines: Vec<String> = Vec::new();
    let mut buttons: Vec<ChoiceButton> = Vec::new();
    let mut i: usize = 0;
    while i < candidates.len()
        invariant
            i <= candidates@.len() <= MAX_CANDIDATES,
            want.len() == candidates@.len(),
            forall|k: int|
                0 <= k < candidates@.len() ==> #[trigger] want[k] == choice_line_of(
                    k + 1,
                    candidates@[k].title@,
                    duration_text_of(candidates@[k].duration),
                ),
            lines@.len() == i,
            buttons@.len() == i,
            forall|k: int| 0 <= k < i ==> (#[trigger] lines@[k])@ == want[k],
            forall|k: int|
                0 <= k < i ==> {
                    &&& (#[trigger] buttons@[k]).custom_id@ == candidates@[k].url@
                    &&& buttons@[k].label@ == label_of(k + 1)
                },
        decreases candidates@.len() - i,
    {
        let c = &candidates[i];
        let duration = duration_text(c.duration);
        lines.push(choice_line(i + 1, &c.title, &duration));
        let label = String::from_str(position_label(i + 1));
        buttons.push(ChoiceButton { custom_id: c.url.clone(), label });
        i = i + 1;
    }
    let text = join_lines(&lines);
    assert(lines@.map_values(|l: String| l@) =~= want);
    ChoicePrompt { text, buttons }
}

} // verus!
