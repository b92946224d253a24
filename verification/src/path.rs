use vstd::prelude::*;
use vstd::string::StrSliceExecFns;
use vstd::string::StringExecFns;

verus! {

/// `base` joined with the relative component `child`: one `/` separator stands
/// between them unless `base` is empty or already ends in one.
pub open spec fn join_seq(base: Seq<char>, child: Seq<char>) -> Seq<char> {
    if base.len() == 0 {
        child
    } else if base.last() == '/' {
        base + child
    } else {
        base + "/"@ + child
    }
}

/// Join a relative component onto a base path, with `/` as the separator.
pub fn join(base: &str, child: &str) -> (r: String)
    ensures
        r@ == join_seq(base@, child@),
{
    let n = base.unicode_len();
    if n == 0 {
        String::from_str(child)
    } else {
        let mut r = base.to_owned();
        if base.get_char(n - 1) != '/' {
            r.append("/");
        }
        r.append(child);
        r
    }
}

} // verus!
