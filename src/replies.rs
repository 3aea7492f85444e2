//! The texts of the replies that the gateway writes itself.

use vstd::prelude::*;
use vstd::string::StringExecFns;

verus! {

/// The reply to a message that the guard classified as a jailbreak attempt.
pub const REFUSAL_TEXT: &'static str = "Looks like you're curious about my abilities, but I can only provide assistance within my programmed parameters.";

/// The opening of a request for parameters that the function call lacks.
pub const GATHER_TEMPLATE: &'static str = "It seems I'm missing some information. Could you provide the following details: ";

/// The opening of a request to confirm fields that could not be verified.
pub const HALLUCINATION_TEMPLATE: &'static str = "It seems I'm missing some information. Could you provide the following details ";

/// The reply when a collaborator call failed.
pub const UPSTREAM_FAILURE_TEXT: &'static str = "The gateway could not complete an internal call.";

/// The reply to a request body that is not a valid chat request.
pub const BAD_REQUEST_TEXT: &'static str = "The request body is not a valid chat completions request.";

/// Field names separated by a comma and a space.
pub open spec fn joined(s: Seq<Seq<char>>) -> Seq<char>
    decreases s.len(),
{
    if s.len() == 0 {
        Seq::empty()
    } else if s.len() == 1 {
        s[0]
    } else {
        joined(s.drop_last()) + ", "@ + s.last()
    }
}

/// The views of a list of strings.
pub open spec fn string_views(v: Seq<String>) -> Seq<Seq<char>> {
    v.map_values(|x: String| x@)
}

/// `prefix` followed by the joined field names.
pub open spec fn fields_text(prefix: Seq<char>, fields: Seq<Seq<char>>) -> Seq<char> {
    prefix + joined(fields)
}

/// Writes `prefix` followed by the field names, separated by commas.
pub fn fields_reply(prefix: &str, fields: &Vec<String>) -> (r: String)
    ensures
        r@ == fields_text(prefix@, string_views(fields@)),
{
    let mut out = String::from_str(prefix);
    let mut i: usize = 0;
    while i < fields.len()
        invariant
            i <= fields@.len(),
            out@ == prefix@ + joined(string_views(fields@.take(i as int))),
        decreases fields@.len() - i,
    {
        let ghost before = out@;
        if i > 0 {
            out.append(", ");
        }
        out.append(fields[i].as_str());
        i = i + 1;
        proof {
            let t = string_views(fields@.take(i as int));
            assert(t.drop_last() =~= string_views(fields@.take(i as int - 1)));
            assert(t.last() == fields@[i - 1]@);
            if i == 1 {
                assert(string_views(fields@.take(0)) =~= Seq::<Seq<char>>::empty());
                assert(out@ =~= prefix@ + joined(t));
            } else {
                assert(out@ =~= prefix@ + joined(t));
            }
        }
    }
    assert(fields@.take(fields@.len() as int) =~= fields@);
    out
}

} // verus!
