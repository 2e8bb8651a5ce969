//! Layout of the control tool's listing of pending token requests.

use crate::auth::PendingTokenRequest;
use vstd::prelude::*;

verus! {

/// Connects the control tool to the daemon's private socket at the given path
pub struct UnixSocketConnector(pub String);

/// Header of the username column
pub const USERNAME_HEADER: &'static str = "username";

/// Header of the address column
pub const REQIADDR_HEADER: &'static str = "address";

/// Length of a text in bytes of its UTF-8 encoding
pub open spec fn utf8_len(text: Seq<char>) -> nat {
    vstd::utf8::encode_utf8(text).len()
}

/// Width of a column: the longest of its entries and its header, in bytes of UTF-8
pub open spec fn column_width(entries: Seq<Seq<char>>, header: Seq<char>) -> nat
    decreases entries.len(),
{
    if entries.len() == 0 {
        utf8_len(header)
    } else {
        let rest = column_width(entries.drop_last(), header);
        let last = utf8_len(entries.last());
        if last > rest {
            last
        } else {
            rest
        }
    }
}

/// Widths of the username and address columns of the listing of the given requests
pub fn listing_widths(requests: &Vec<PendingTokenRequest>) -> (widths: (usize, usize))
    ensures
        widths.0 == column_width(requests@.map_values(|r: PendingTokenRequest| r.username@), USERNAME_HEADER@),
        widths.1 == column_width(
            requests@.map_values(|r: PendingTokenRequest| r.requester_address@),
            REQIADDR_HEADER@,
        ),
{
    let mut user_width: usize = USERNAME_HEADER.as_bytes().len();
    let mut addr_width: usize = REQIADDR_HEADER.as_bytes().len();
    let mut i: usize = 0;
    assert(requests@.subrange(0, 0).map_values(|r: PendingTokenRequest| r.username@) =~= Seq::<
        Seq<char>,
    >::empty());
    assert(requests@.subrange(0, 0).map_values(|r: PendingTokenRequest| r.requester_address@)
        =~= Seq::<Seq<char>>::empty());
    while i < requests.len()
        invariant
            i <= requests@.len(),
            user_width == column_width(
                requests@.subrange(0, i as int).map_values(|r: PendingTokenRequest| r.username@),
                USERNAME_HEADER@,
            ),
            addr_width == column_width(
                requests@.subrange(0, i as int).map_values(
                    |r: PendingTokenRequest| r.requester_address@,
                ),
                REQIADDR_HEADER@,
            ),
        decreases requests@.len() - i,
    {
        let ghost names = requests@.subrange(0, i + 1).map_values(
            |r: PendingTokenRequest| r.username@,
        );
        let ghost addrs = requests@.subrange(0, i + 1).map_values(
            |r: PendingTokenRequest| r.requester_address@,
        );
        assert(names.drop_last() =~= requests@.subrange(0, i as int).map_values(
            |r: PendingTokenRequest| r.username@,
        ));
        assert(addrs.drop_last() =~= requests@.subrange(0, i as int).map_values(
            |r: PendingTokenRequest| r.requester_address@,
        ));
        assert(names.last() == requests@[i as int].username@);
        assert(addrs.last() == requests@[i as int].requester_address@);
        let u = requests[i].username.as_str().as_bytes().len();
        let a = requests[i].requester_address.as_str().as_bytes().len();
        assert(u == utf8_len(requests@[i as int].username@));
        assert(a == utf8_len(requests@[i as int].requester_address@));
        if u > user_width {
            user_width = u;
        }
        if a > addr_width {
            addr_width = a;
        }
        i = i + 1;
    }
    assert(requests@.subrange(0, i as int) =~= requests@);
    (user_width, addr_width)
}

} // verus!
