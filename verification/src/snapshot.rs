use vstd::prelude::*;

use crate::model::{word_at, Model};
use crate::util::dec_str;

verus! {

/// What `serde_json` renders a word sequence as: a JSON array of the
/// numbers, a function of the words alone.
pub uninterp spec fn json_of_words(s: Seq<u16>) -> Seq<char>;

/// What `serde_json` renders a sequence of address-value pairs as: a
/// JSON array of two-element arrays, a function of the pairs alone.
pub uninterp spec fn json_of_cells(s: Seq<(u16, u16)>) -> Seq<char>;

/// Relies on `serde_json::to_string`: it renders the vector as JSON, a
/// function of the words alone.  Serializing a vector of plain integers
/// cannot fail, so the error arm is unreachable.
#[verifier::external_body]
pub(crate) fn json_words(v: &Vec<u16>) -> (r: String)
    ensures
        r@ == json_of_words(v@),
{
    match serde_json::to_string(v) {
        Ok(s) => s,
        Err(_) => String::new(),
    }
}

/// Relies on `serde_json::to_string`: it renders the vector of pairs as
/// JSON, a function of the pairs alone.  Serializing a vector of integer
/// pairs cannot fail, so the error arm is unreachable.
#[verifier::external_body]
pub(crate) fn json_cells(v: &Vec<(u16, u16)>) -> (r: String)
    ensures
        r@ == json_of_cells(v@),
{
    match serde_json::to_string(v) {
        Ok(s) => s,
        Err(_) => String::new(),
    }
}

/// The set addresses of a memory with their words, in address order,
/// over the first `n` addresses.
pub open spec fn mem_cells(mem: Seq<Option<u16>>, n: nat) -> Seq<(u16, u16)>
    decreases n,
{
    if n == 0 {
        Seq::empty()
    } else {
        let rest = mem_cells(mem, (n - 1) as nat);
        match mem[n - 1] {
            Some(w) => rest.push(((n - 1) as u16, w)),
            None => rest,
        }
    }
}

/// The inspection snapshot of a machine: the instruction pointer and the
/// word it addresses (a question mark when unset), then registers, stack
/// and the set memory cells, each as JSON.
pub open spec fn dump_spec(m: Model) -> Seq<char> {
    "IP\n"@ + dec_str(m.ip as int) + "\n"@ + (match word_at(m, m.ip as int) {
        Some(w) => dec_str(w as int),
        None => "?"@,
    }) + "\n\nRegisters\n"@ + json_of_words(m.regs) + "\n\nStack\n"@ + json_of_words(m.stack)
        + "\n\nMemory\n"@ + json_of_cells(mem_cells(m.mem, m.mem.len()))
}

} // verus!
