//! Receivables aging: the class that marks each aging bucket.

use vstd::prelude::*;
use crate::text::str_eq;

verus! {

/// The class of an aging bucket: danger past 90 days, warning for 61-90, info for 31-60, plain otherwise.
pub open spec fn bucket_class_of(bucket: Seq<char>) -> Seq<char> {
    if bucket == "90+"@ {
        "ar-bucket-danger"@
    } else if bucket == "61-90"@ {
        "ar-bucket-warning"@
    } else if bucket == "31-60"@ {
        "ar-bucket-info"@
    } else {
        "ar-bucket-default"@
    }
}

/// The class of an aging bucket.
pub fn bucket_class(bucket: &str) -> (r: &'static str)
    ensures
        r@ == bucket_class_of(bucket@),
{
    if str_eq(bucket, "90+") {
        "ar-bucket-danger"
    } else if str_eq(bucket, "61-90") {
        "ar-bucket-warning"
    } else if str_eq(bucket, "31-60") {
        "ar-bucket-info"
    } else {
        "ar-bucket-default"
    }
}

/// Each aging bucket has its own class: `90+` danger, `61-90` warning, `31-60` info; every other bucket, `0-30` among them, the plain class.
pub proof fn law_bucket_classes(s: Seq<char>)
    ensures
        (bucket_class_of(s) == "ar-bucket-danger"@) == (s == "90+"@),
        (bucket_class_of(s) == "ar-bucket-warning"@) == (s == "61-90"@),
        (bucket_class_of(s) == "ar-bucket-info"@) == (s == "31-60"@),
        (bucket_class_of(s) == "ar-bucket-default"@) == (s != "90+"@ && s != "61-90"@ && s != "31-60"@),
{
    reveal_strlit("31-60");
    reveal_strlit("61-90");
    reveal_strlit("90+");
    reveal_strlit("ar-bucket-danger");
    reveal_strlit("ar-bucket-default");
    reveal_strlit("ar-bucket-info");
    reveal_strlit("ar-bucket-warning");
    assert("31-60"@.len() == 5);
    assert("61-90"@.len() == 5);
    assert("90+"@.len() == 3);
    assert("ar-bucket-danger"@.len() == 16);
    assert("ar-bucket-default"@.len() == 17);
    assert("ar-bucket-info"@.len() == 14);
    assert("ar-bucket-warning"@.len() == 17);
    assert("31-60"@[0] != "61-90"@[0]);
    assert("ar-bucket-default"@[10] != "ar-bucket-warning"@[10]);
}

} // verus!
