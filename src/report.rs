//! The plain-text echo of a submitted form: one entry per field, in the order
//! the fields arrived.
use vstd::prelude::*;
use vstd::string::StringExecFns;

verus! {

/// The line written under each field's entry.
pub const FIELD_SEPARATOR: &'static str = "___________________";

/// One field's entry: `name: text`, a line break, the separator, a line break.
pub open spec fn field_entry(name: Seq<char>, text: Seq<char>) -> Seq<char> {
    name + ": "@ + text + "\n"@ + FIELD_SEPARATOR@ + "\n"@
}

/// The entries of all fields, one after the other.
pub open spec fn report_of(fields: Seq<(String, String)>) -> Seq<char>
    decreases fields.len(),
{
    if fields.len() == 0 {
        Seq::empty()
    } else {
        report_of(fields.drop_last()) + field_entry(fields.last().0@, fields.last().1@)
    }
}

/// Writes the entries of the given `(name, text)` pairs.
pub fn form_report(fields: &Vec<(String, String)>) -> (r: String)
    ensures
        r@ == report_of(fields@),
{
    let mut out = String::new();
    let mut i: usize = 0;
    while i < fields.len()
        invariant
            i <= fields.len(),
            out@ == report_of(fields@.take(i as int)),
        decreases fields.len() - i,
    {
        let (name, text) = &fields[i];
        out.append(name.as_str());
        out.append(": ");
        out.append(text.as_str());
        out.append("\n");
        out.append(FIELD_SEPARATOR);
        out.append("\n");
        assert(fields@.take(i + 1).drop_last() =~= fields@.take(i as int));
        i = i + 1;
    }
    assert(fields@.take(i as int) =~= fields@);
    out
}

} // verus!
