//! Deriving a human-readable MAC address from a platform device identifier.
//!
//! The identifier's part after its last `#` separator is searched for
//! hexadecimal characters; the first twelve are rendered as six
//! colon-separated two-character uppercase groups. Identifiers yielding fewer
//! than twelve hexadecimal characters carry no address.

use vstd::prelude::*;

verus! {

/// Hexadecimal characters a MAC address is collected from.
pub const MAC_ADDRESS_LENGTH: usize = 12;

/// ASCII hexadecimal digit, either case.
pub open spec fn is_hex_digit(c: char) -> bool {
    (48 <= c as u32 && c as u32 <= 57)  // '0' ..= '9'
    || (97 <= c as u32 && c as u32 <= 102)  // 'a' ..= 'f'
    || (65 <= c as u32 && c as u32 <= 70)  // 'A' ..= 'F'
}

/// Uppercase hexadecimal digit.
pub open spec fn is_upper_hex_digit(c: char) -> bool {
    (48 <= c as u32 && c as u32 <= 57) || (65 <= c as u32 && c as u32 <= 70)
}

/// The longest suffix of `s` without a `#`: everything after the last `#`
/// separator, or all of `s` when none occurs.
pub open spec fn after_hash(s: Seq<char>) -> Seq<char>
    decreases s.len(),
{
    if s.contains('#') {
        after_hash(s.drop_first())
    } else {
        s
    }
}

/// The hexadecimal characters of `s`, in order.
pub open spec fn hex_digits_of(s: Seq<char>) -> Seq<char>
    decreases s.len(),
{
    if s.len() == 0 {
        Seq::empty()
    } else {
        let rest = hex_digits_of(s.drop_last());
        if is_hex_digit(s.last()) {
            rest.push(s.last())
        } else {
            rest
        }
    }
}

/// The lowercase hexadecimal letters mapped to uppercase; other characters
/// kept.
pub open spec fn upper_hex(c: char) -> char {
    if c == 'a' {
        'A'
    } else if c == 'b' {
        'B'
    } else if c == 'c' {
        'C'
    } else if c == 'd' {
        'D'
    } else if c == 'e' {
        'E'
    } else if c == 'f' {
        'F'
    } else {
        c
    }
}

/// Twelve hexadecimal characters rendered as six colon-separated two-character
/// uppercase groups: position `3g` and `3g + 1` carry group `g`, every third
/// position a colon.
pub open spec fn mac_format(h: Seq<char>) -> Seq<char>
    recommends
        h.len() == MAC_ADDRESS_LENGTH,
{
    Seq::new(
        17,
        |i: int|
            if i % 3 == 2 {
                ':'
            } else {
                upper_hex(h[2 * (i / 3) + i % 3])
            },
    )
}

proof fn lemma_after_hash_at(s: Seq<char>, start: int)
    requires
        0 <= start <= s.len(),
        forall|m: int| start <= m < s.len() ==> s[m] != '#',
        start > 0 ==> s[start - 1] == '#',
    ensures
        after_hash(s) == s.subrange(start, s.len() as int),
    decreases s.len(),
{
    if start == 0 {
        if s.contains('#') {
            let i = choose|i: int| 0 <= i < s.len() && s[i] == '#';
            assert(false);
        }
        assert(s.subrange(0, s.len() as int) =~= s);
    } else {
        assert(s.contains('#')) by {
            assert(0 <= start - 1 < s.len() && s[start - 1] == '#');
        }
        let t = s.drop_first();
        assert(forall|m: int| start - 1 <= m < t.len() ==> t[m] != '#');
        if start - 1 > 0 {
            assert(t[start - 2] == s[start - 1]);
        }
        lemma_after_hash_at(t, start - 1);
        assert(t.subrange(start - 1, t.len() as int) =~= s.subrange(start, s.len() as int));
    }
}

proof fn lemma_hex_digits_push(s: Seq<char>, c: char)
    ensures
        is_hex_digit(c) ==> hex_digits_of(s.push(c)) == hex_digits_of(s).push(c),
        !is_hex_digit(c) ==> hex_digits_of(s.push(c)) == hex_digits_of(s),
{
    assert(s.push(c).drop_last() =~= s);
    assert(s.push(c).last() == c);
}

proof fn lemma_hex_digits_concat(a: Seq<char>, b: Seq<char>)
    ensures
        hex_digits_of(a + b) == hex_digits_of(a) + hex_digits_of(b),
    decreases b.len(),
{
    if b.len() == 0 {
        assert(a + b =~= a);
        assert(hex_digits_of(a) + hex_digits_of(b) =~= hex_digits_of(a));
    } else {
        lemma_hex_digits_concat(a, b.drop_last());
        assert((a + b).drop_last() =~= a + b.drop_last());
        assert((a + b).last() == b.last());
        if is_hex_digit(b.last()) {
            assert(hex_digits_of(a) + hex_digits_of(b) =~= (hex_digits_of(a) + hex_digits_of(
                b.drop_last(),
            )).push(b.last()));
        } else {
            assert(hex_digits_of(a) + hex_digits_of(b) =~= hex_digits_of(a) + hex_digits_of(
                b.drop_last(),
            ));
        }
    }
}

/// ASCII hexadecimal digit, either case.
fn is_hex_digit_char(c: char) -> (r: bool)
    ensures
        r == is_hex_digit(c),
{
    let v = c as u32;
    (48 <= v && v <= 57) || (97 <= v && v <= 102) || (65 <= v && v <= 70)
}

/// The one-character rendering of a hexadecimal character, uppercased.
fn upper_hex_str(c: char) -> (r: &'static str)
    requires
        is_hex_digit(c),
    ensures
        r@.len() == 1,
        r@[0] == upper_hex(c),
{
    if c == '0' {
        proof {
            reveal_strlit("0");
        }
        "0"
    } else if c == '1' {
        proof {
            reveal_strlit("1");
        }
        "1"
    } else if c == '2' {
        proof {
            reveal_strlit("2");
        }
        "2"
    } else if c == '3' {
        proof {
            reveal_strlit("3");
        }
        "3"
    } else if c == '4' {
        proof {
            reveal_strlit("4");
        }
        "4"
    } else if c == '5' {
        proof {
            reveal_strlit("5");
        }
        "5"
    } else if c == '6' {
        proof {
            reveal_strlit("6");
        }
        "6"
    } else if c == '7' {
        proof {
            reveal_strlit("7");
        }
        "7"
    } else if c == '8' {
        proof {
            reveal_strlit("8");
        }
        "8"
    } else if c == '9' {
        proof {
            reveal_strlit("9");
        }
        "9"
    } else if c == 'a' || c == 'A' {
        proof {
            reveal_strlit("A");
        }
        "A"
    } else if c == 'b' || c == 'B' {
        proof {
            reveal_strlit("B");
        }
        "B"
    } else if c == 'c' || c == 'C' {
        proof {
            reveal_strlit("C");
        }
        "C"
    } else if c == 'd' || c == 'D' {
        proof {
            reveal_strlit("D");
        }
        "D"
    } else if c == 'e' || c == 'E' {
        proof {
            reveal_strlit("E");
        }
        "E"
    } else {
        proof {
            reveal_strlit("F");
        }
        "F"
    }
}

/// Derives the MAC address carried by a platform device identifier: the first
/// twelve hexadecimal characters after the last `#` separator, as six
/// colon-separated uppercase groups; nothing when fewer than twelve are found.
pub fn extract_mac_address(device_id: &str) -> (r: Option<String>)
    ensures
        r is Some <==> hex_digits_of(after_hash(device_id@)).len() >= MAC_ADDRESS_LENGTH,
        r is Some ==> r->0@ == mac_format(
            hex_digits_of(after_hash(device_id@)).take(MAC_ADDRESS_LENGTH as int),
        ),
{
    let len = device_id.unicode_len();

    // Position right after the last `#`, or the start when none occurs.
    let mut start: usize = 0;
    let mut k: usize = len;
    loop
        invariant_except_break
            len == device_id@.len(),
            0 <= k <= len,
            start == 0,
            forall|m: int| k <= m < len ==> device_id@[m] != '#',
        ensures
            0 <= start <= len,
            forall|m: int| start <= m < len ==> device_id@[m] != '#',
            start > 0 ==> device_id@[start - 1] == '#',
        decreases k,
    {
        if k == 0 {
            break ;
        }
        if device_id.get_char(k - 1) == '#' {
            start = k;
            break ;
        }
        k -= 1;
    }
    proof {
        lemma_after_hash_at(device_id@, start as int);
    }

    // Collect up to twelve hexadecimal characters from the suffix.
    let mut hex: Vec<char> = Vec::new();
    let mut j: usize = start;
    while j < len && hex.len() < MAC_ADDRESS_LENGTH
        invariant
            len == device_id@.len(),
            start <= j <= len,
            hex@ == hex_digits_of(device_id@.subrange(start as int, j as int)),
            hex@.len() <= MAC_ADDRESS_LENGTH,
            forall|m: int| 0 <= m < hex@.len() ==> is_hex_digit(hex@[m]),
        decreases len - j,
    {
        let c = device_id.get_char(j);
        let ghost pre = device_id@.subrange(start as int, j as int);
        if is_hex_digit_char(c) {
            hex.push(c);
        }
        j += 1;
        proof {
            assert(device_id@.subrange(start as int, j as int) =~= pre.push(
                device_id@[j - 1],
            ));
            lemma_hex_digits_push(pre, device_id@[j - 1]);
        }
    }
    let ghost all_hex = hex_digits_of(after_hash(device_id@));
    proof {
        if j < len {
            assert(device_id@.subrange(start as int, len as int) =~= device_id@.subrange(
                start as int,
                j as int,
            ) + device_id@.subrange(j as int, len as int));
            lemma_hex_digits_concat(
                device_id@.subrange(start as int, j as int),
                device_id@.subrange(j as int, len as int),
            );
        }
    }
    if hex.len() < MAC_ADDRESS_LENGTH {
        // The whole suffix was read and yielded too few hexadecimal characters.
        return None;
    }
    proof {
        assert(all_hex.take(MAC_ADDRESS_LENGTH as int) =~= hex@);
    }

    // Render the six colon-separated uppercase groups.
    let mut out = String::new();
    let mut p: usize = 0;
    while p < 17
        invariant
            hex@.len() == MAC_ADDRESS_LENGTH,
            forall|m: int| 0 <= m < hex@.len() ==> is_hex_digit(hex@[m]),
            0 <= p <= 17,
            out@ == mac_format(hex@).take(p as int),
        decreases 17 - p,
    {
        if p % 3 == 2 {
            out.append(":");
            proof {
                reveal_strlit(":");
                assert(out@ =~= mac_format(hex@).take(p as int + 1));
            }
        } else {
            let c = hex[2 * (p / 3) + p % 3];
            out.append(upper_hex_str(c));
            proof {
                assert(out@ =~= mac_format(hex@).take(p as int + 1));
            }
        }
        p += 1;
    }
    proof {
        assert(mac_format(hex@).take(17) =~= mac_format(hex@));
    }
    Some(out)
}

proof fn lemma_mac_format_shape(h: Seq<char>)
    requires
        h.len() == MAC_ADDRESS_LENGTH,
        forall|m: int| 0 <= m < h.len() ==> is_hex_digit(h[m]),
    ensures
        mac_format(h).len() == 17,
        forall|i: int| 0 <= i < 17 && i % 3 == 2 ==> mac_format(h)[i] == ':',
        forall|i: int| 0 <= i < 17 && i % 3 != 2 ==> is_upper_hex_digit(mac_format(h)[i]),
{
    assert forall|i: int| 0 <= i < 17 && i % 3 != 2 implies is_upper_hex_digit(
        mac_format(h)[i],
    ) by {
        let c = h[2 * (i / 3) + i % 3];
        assert(is_hex_digit(c));
        assert(is_upper_hex_digit(upper_hex(c)));
    }
}

proof fn lemma_hex_digits_are_hex(s: Seq<char>)
    ensures
        forall|m: int| 0 <= m < hex_digits_of(s).len() ==> is_hex_digit(#[trigger] hex_digits_of(
            s,
        )[m]),
    decreases s.len(),
{
    if s.len() > 0 {
        lemma_hex_digits_are_hex(s.drop_last());
        let rest = hex_digits_of(s.drop_last());
        assert forall|m: int| 0 <= m < hex_digits_of(s).len() implies is_hex_digit(
            #[trigger] hex_digits_of(s)[m],
        ) by {
            if is_hex_digit(s.last()) {
                assert(hex_digits_of(s) == rest.push(s.last()));
                if m < rest.len() {
                    assert(hex_digits_of(s)[m] == rest[m]);
                } else {
                    assert(hex_digits_of(s)[m] == s.last());
                }
            } else {
                assert(hex_digits_of(s) == rest);
            }
        }
    }
}

/// The shape of every derived address: an identifier yielding at least twelve
/// hexadecimal characters after its last `#` separator is rendered as
/// seventeen characters, with a colon at every third position and an
/// uppercase hexadecimal character everywhere else.
pub proof fn lemma_extracted_address_shape(s: Seq<char>)
    requires
        hex_digits_of(after_hash(s)).len() >= MAC_ADDRESS_LENGTH,
    ensures
        ({
            let address = mac_format(hex_digits_of(after_hash(s)).take(MAC_ADDRESS_LENGTH as int));
            &&& address.len() == 17
            &&& forall|i: int| 0 <= i < 17 && i % 3 == 2 ==> address[i] == ':'
            &&& forall|i: int| 0 <= i < 17 && i % 3 != 2 ==> is_upper_hex_digit(address[i])
        }),
{
    let all = hex_digits_of(after_hash(s));
    let h = all.take(MAC_ADDRESS_LENGTH as int);
    lemma_hex_digits_are_hex(after_hash(s));
    assert(forall|m: int| 0 <= m < h.len() ==> h[m] == all[m]);
    lemma_mac_format_shape(h);
}

} // verus!
