//! The header surface of one inbound request: named byte values, looked up
//! by name, and the session cookie hidden inside the `cookie` header.

use vstd::prelude::*;
use vstd::utf8::encode_utf8;
use crate::bytesutil::{bytes_eq, split_bytes, split_on, subrange_vec, trim_bytes, trimmed};

verus! {

/// One request header: a name (lower case, as an HTTP layer normalizes
/// it) and an uninterpreted byte value.
pub struct HeaderEntry {
    pub name: String,
    pub value: Vec<u8>,
}

/// The headers of one inbound request, in arrival order.
pub struct Headers {
    pub entries: Vec<HeaderEntry>,
}

/// The value of the first header named `name`, if any.
pub open spec fn header_lookup(entries: Seq<HeaderEntry>, name: Seq<char>) -> Option<Seq<u8>>
    decreases entries.len(),
{
    if entries.len() == 0 {
        None
    } else if entries[0].name@ == name {
        Some(entries[0].value@)
    } else {
        header_lookup(entries.drop_first(), name)
    }
}

/// In a list of trimmed-to-be cookie segments, the value of the first one
/// of the shape `<prefix><value>`.
pub open spec fn find_cookie(segs: Seq<Seq<u8>>, prefix: Seq<u8>) -> Option<Seq<u8>>
    decreases segs.len(),
{
    if segs.len() == 0 {
        None
    } else {
        let t = trimmed(segs[0]);
        if t.len() >= prefix.len() && t.take(prefix.len() as int) == prefix {
            Some(t.skip(prefix.len() as int))
        } else {
            find_cookie(segs.drop_first(), prefix)
        }
    }
}

/// The session identifier carried by the request: in the first `cookie`
/// header, the value of the first `;`-separated pair named `cookie_name`.
pub open spec fn cookie_value(entries: Seq<HeaderEntry>, cookie_name: Seq<char>) -> Option<
    Seq<u8>,
> {
    match header_lookup(entries, "cookie"@) {
        Option::None => Option::None,
        Option::Some(raw) => find_cookie(
            split_on(raw, 0x3b),
            encode_utf8(cookie_name) + seq![0x3du8],
        ),
    }
}

impl Headers {
    pub open spec fn lookup(&self, name: Seq<char>) -> Option<Seq<u8>> {
        header_lookup(self.entries@, name)
    }

    /// The first header named `name`, if any.
    pub fn get(&self, name: &String) -> (r: Option<&Vec<u8>>)
        ensures
            match self.lookup(name@) {
                Option::None => r is None,
                Option::Some(v) => r matches Some(got) && got@ == v,
            },
    {
        let mut i: usize = 0;
        proof {
            assert(self.entries@.skip(0) =~= self.entries@);
        }
        while i < self.entries.len()
            invariant
                i <= self.entries@.len(),
                header_lookup(self.entries@.skip(i as int), name@) == header_lookup(
                    self.entries@,
                    name@,
                ),
            decreases self.entries@.len() - i,
        {
            proof {
                assert(self.entries@.skip(i as int)[0] == self.entries@[i as int]);
                assert(self.entries@.skip(i as int).drop_first() =~= self.entries@.skip(
                    i as int + 1,
                ));
            }
            let e = &self.entries[i];
            if e.name == *name {
                return Some(&e.value);
            }
            i += 1;
        }
        proof {
            assert(self.entries@.skip(i as int) =~= Seq::<HeaderEntry>::empty());
        }
        None
    }
}

/// Extracts the session identifier from the request's `cookie` header:
/// the value of the first `;`-separated pair named `cookie_name`, pairs
/// trimmed of surrounding whitespace. Absence of the header, or of such a
/// pair, is an ordinary `None`.
pub fn session_cookie_value(headers: &Headers, cookie_name: &String) -> (r: Option<Vec<u8>>)
    ensures
        match cookie_value(headers.entries@, cookie_name@) {
            Option::None => r is None,
            Option::Some(v) => r matches Some(got) && got@ == v,
        },
{
    let cookie_header = String::from_str("cookie");
    let raw = match headers.get(&cookie_header) {
        None => {
            return None;
        },
        Some(v) => v,
    };
    let mut prefix = cookie_name.as_bytes_vec();
    prefix.push(0x3d);
    proof {
        assert(prefix@ =~= encode_utf8(cookie_name@) + seq![0x3du8]);
    }
    let segs = split_bytes(raw.as_slice(), 0x3b);
    let ghost all = segs.deep_view();
    proof {
        assert(all.skip(0) =~= all);
    }
    let mut k: usize = 0;
    while k < segs.len()
        invariant
            k <= segs@.len(),
            all == segs.deep_view(),
            find_cookie(all.skip(k as int), prefix@) == find_cookie(all, prefix@),
            prefix@ == encode_utf8(cookie_name@) + seq![0x3du8],
            header_lookup(headers.entries@, "cookie"@) == Some(raw@),
            all == split_on(raw@, 0x3b),
        decreases segs@.len() - k,
    {
        proof {
            assert(all.skip(k as int)[0] == all[k as int]);
            assert(all.skip(k as int).drop_first() =~= all.skip(k as int + 1));
            assert(segs@[k as int].deep_view() =~= segs@[k as int]@);
        }
        let t = trim_bytes(segs[k].as_slice());
        if t.len() >= prefix.len() {
            let head = subrange_vec(t.as_slice(), 0, prefix.len());
            proof {
                assert(head@ =~= trimmed(all[k as int]).take(prefix@.len() as int));
            }
            if bytes_eq(head.as_slice(), prefix.as_slice()) {
                let val = subrange_vec(t.as_slice(), prefix.len(), t.len());
                proof {
                    assert(val@ =~= trimmed(all[k as int]).skip(prefix@.len() as int));
                    assert(find_cookie(all.skip(k as int), prefix@) == Some(
                        trimmed(all[k as int]).skip(prefix@.len() as int),
                    ));
                    assert(cookie_value(headers.entries@, cookie_name@) == Some(
                        trimmed(all[k as int]).skip(prefix@.len() as int),
                    ));
                }
                return Some(val);
            }
        }
        k += 1;
    }
    proof {
        assert(all.skip(k as int) =~= Seq::<Seq<u8>>::empty());
    }
    None
}

} // verus!
