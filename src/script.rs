use vstd::prelude::*;
use vstd::string::*;

verus! {

/// The text of the script that hands one serialised batch to the window's
/// interpreter: `window.interpreter.handleEdits(<batch>)`.
pub open spec fn edit_script_text(batch: Seq<char>) -> Seq<char> {
    "window.interpreter.handleEdits("@ + batch + ")"@
}

/// Builds the script that applies one serialised batch in a window.
pub fn edit_script(batch: &str) -> (r: String)
    ensures
        r@ == edit_script_text(batch@),
{
    let mut script = String::from_str("window.interpreter.handleEdits(");
    script.append(batch);
    script.append(")");
    script
}

/// Builds the scripts for a run of batches, one per batch, in order.
pub fn edit_scripts(batches: &Vec<String>) -> (r: Vec<String>)
    ensures
        r@.len() == batches@.len(),
        forall|i: int| 0 <= i < r@.len() ==> r@[i]@ == edit_script_text(#[trigger] batches@[i]@),
{
    let mut out: Vec<String> = Vec::new();
    let mut i: usize = 0;
    while i < batches.len()
        invariant
            i <= batches@.len(),
            out@.len() == i,
            forall|j: int| 0 <= j < i ==> out@[j]@ == edit_script_text(#[trigger] batches@[j]@),
        decreases batches@.len() - i,
    {
        out.push(edit_script(batches[i].as_str()));
        i = i + 1;
    }
    out
}

} // verus!
