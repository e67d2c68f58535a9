//! Customer list: the city shown for a billing address and the status counts above the list.

use vstd::prelude::*;
use crate::text::{
    before_first, chars_before, chars_of, count_equal, names_of, str_eq, string_of, trim_chars, trimmed,
};

verus! {

/// The city of a billing address: the part before the first comma, without surrounding
/// white space.
pub open spec fn city_of(address: Seq<char>) -> Seq<char> {
    trimmed(before_first(address, ','))
}

/// The city shown for a customer with the given billing address.
pub fn city_from_address(address: &str) -> (r: String)
    ensures
        r@ == city_of(address@),
{
    let chars = chars_of(address);
    let head = chars_before(&chars, ',');
    let city = trim_chars(&head);
    string_of(&city)
}

/// How many customers have each status.
pub struct StatusCounts {
    pub total: usize,
    pub active: usize,
    pub inactive: usize,
    pub over_limit: usize,
}

/// Counts the customers that are active, inactive and over their credit limit, given
/// their statuses; a status other than these three is counted in the total only.
pub fn count_statuses(statuses: &Vec<String>) -> (r: StatusCounts)
    ensures
        r.total == statuses@.len(),
        r.active == count_equal(names_of(statuses@), "Active"@),
        r.inactive == count_equal(names_of(statuses@), "Inactive"@),
        r.over_limit == count_equal(names_of(statuses@), "Over Limit"@),
{
    let mut active: usize = 0;
    let mut inactive: usize = 0;
    let mut over_limit: usize = 0;
    let mut i: usize = 0;
    proof {
        reveal_strlit("Active");
        reveal_strlit("Inactive");
        reveal_strlit("Over Limit");
        assert("Active"@.len() != "Inactive"@.len());
        assert("Active"@.len() != "Over Limit"@.len());
        assert("Inactive"@.len() != "Over Limit"@.len());
    }
    while i < statuses.len()
        invariant
            i <= statuses.len(),
            "Active"@ != "Inactive"@,
            "Active"@ != "Over Limit"@,
            "Inactive"@ != "Over Limit"@,
            active == count_equal(names_of(statuses@.take(i as int)), "Active"@),
            inactive == count_equal(names_of(statuses@.take(i as int)), "Inactive"@),
            over_limit == count_equal(names_of(statuses@.take(i as int)), "Over Limit"@),
            active + inactive + over_limit <= i,
        decreases statuses.len() - i,
    {
        proof {
            assert(names_of(statuses@.take(i + 1)).drop_last() =~= names_of(statuses@.take(i as int)));
            assert(names_of(statuses@.take(i + 1)).last() == statuses@[i as int]@);
        }
        let s = statuses[i].as_str();
        if str_eq(s, "Active") {
            active = active + 1;
        } else if str_eq(s, "Inactive") {
            inactive = inactive + 1;
        } else if str_eq(s, "Over Limit") {
            over_limit = over_limit + 1;
        }
        i = i + 1;
    }
    proof {
        assert(statuses@.take(statuses.len() as int) =~= statuses@);
    }
    StatusCounts { total: statuses.len(), active, inactive, over_limit }
}

/// The city of an address is the text before its first comma with the white space around
/// it dropped: `n` is the position of the first comma (the end, where there is none), and
/// the city is some `address[i..j]` with `j <= n` and only white space between the start
/// and `i` and between `j` and `n`.
pub proof fn law_city(address: Seq<char>)
    ensures
        ({
            let n = before_first(address, ',').len() as int;
            &&& n == address.len() || address[n] == ','
            &&& forall|k: int| 0 <= k < n ==> #[trigger] address[k] != ','
            &&& exists|i: int, j: int|
                0 <= i <= j <= n && #[trigger] address.subrange(i, j) == city_of(address) && (forall|k: int|
                    0 <= k < i ==> crate::text::unicode_white_space(#[trigger] address[k])) && (forall|k: int|
                    j <= k < n ==> crate::text::unicode_white_space(#[trigger] address[k]))
        }),
{
    let b = before_first(address, ',');
    crate::text::law_before_first(address, ',');
    crate::text::law_trimmed(b);
    let n = b.len() as int;
    let (i, j) = choose|i: int, j: int|
        0 <= i <= j <= b.len() && #[trigger] b.subrange(i, j) == trimmed(b) && (forall|k: int|
            0 <= k < i ==> crate::text::unicode_white_space(#[trigger] b[k])) && (forall|k: int|
            j <= k < b.len() ==> crate::text::unicode_white_space(#[trigger] b[k])) && (i < j
            ==> !crate::text::unicode_white_space(b[i]) && !crate::text::unicode_white_space(b[j - 1]));
    assert(address.subrange(i, j) =~= b.subrange(i, j));
    assert forall|k: int| 0 <= k < n implies #[trigger] address[k] != ',' by {
        assert(address[k] == b[k]);
    }
    assert forall|k: int| 0 <= k < i implies crate::text::unicode_white_space(#[trigger] address[k]) by {
        assert(address[k] == b[k]);
    }
    assert forall|k: int| j <= k < n implies crate::text::unicode_white_space(#[trigger] address[k]) by {
        assert(address[k] == b[k]);
    }
    assert(0 <= i <= j <= n && address.subrange(i, j) == city_of(address));
}

} // verus!
