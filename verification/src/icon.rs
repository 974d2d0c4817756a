//! The country code inside an event icon. Icons are stored as Discord
//! emoji `:flag_xx:`, so the code is bytes 6 to 8 of the icon's UTF-8 text.
use vstd::prelude::*;
use vstd::string::*;
use vstd::utf8::*;

verus! {

broadcast use vstd::utf8::group_utf8_lib;

/// UTF-8 bytes of a text.
pub open spec fn utf8(s: Seq<char>) -> Seq<u8> {
    encode_utf8(s)
}

/// Bytes 6 to 8 of the icon can be cut out: there are at least eight and
/// both positions start a character.
pub open spec fn code_cut_ok(icon: Seq<char>) -> bool {
    &&& utf8(icon).len() >= 8
    &&& is_char_boundary(utf8(icon), 6)
    &&& is_char_boundary(utf8(icon), 8)
}

/// The text of bytes 6 to 8 of the icon.
pub open spec fn icon_code(icon: Seq<char>) -> Seq<char> {
    decode_utf8(utf8(icon).subrange(6, 8))
}

/// The country code shown in the event list: bytes 6 to 8 of icons of at
/// least nine bytes when they are ASCII, `__` otherwise.
pub open spec fn listed_code(icon: Seq<char>) -> Seq<char> {
    if utf8(icon).len() < 9 {
        "__"@
    } else if is_ascii_chars(icon_code(icon)) {
        icon_code(icon)
    } else {
        "__"@
    }
}

/// `&icon[6..8]`.
pub fn code_of(icon: &str) -> (r: &str)
    requires
        code_cut_ok(icon@),
    ensures
        r@ == icon_code(icon@),
{
    let ghost b = utf8(icon@);
    assert(icon.spec_bytes() == b);
    let (_, rest) = icon.split_at(6);
    assert(rest.spec_bytes() =~= b.subrange(6, b.len() as int));
    proof {
        let rb = rest.spec_bytes();
        assert(valid_utf8(rb));
        if 2 < rb.len() {
            assert(rb[2] == b[8]);
            assert(is_char_boundary(rb, 2) <==> !is_continuation_byte(rb[2]));
            assert(is_char_boundary(b, 8) <==> !is_continuation_byte(b[8]));
        } else {
            assert(rb.len() == 2);
            assert(is_char_boundary(rb, rb.len() as int));
        }
    }
    let (code, _) = rest.split_at(2);
    assert(code.spec_bytes() =~= b.subrange(6, 8));
    proof {
        let cb = code.spec_bytes();
        assert(decode_utf8(encode_utf8(code@)) == code@);
    }
    code
}

/// The emoji stored for a two-letter country code.
pub open spec fn flag_icon(code: Seq<char>) -> Seq<char> {
    ":flag_"@ + code + ":"@
}

/// `:flag_<code>:`, the icon stored for a country code.
pub fn make_flag_icon(code: &str) -> (r: String)
    ensures
        r@ == flag_icon(code@),
{
    let mut r = String::from_str(":flag_");
    r.append(code);
    r.append(":");
    assert(r@ =~= flag_icon(code@));
    r
}

/// The country code entered in the event form comes back unchanged in the
/// event list and in the edit dialog: for an ASCII code of two characters,
/// the stored icon can be cut and its bytes 6 to 8 are the code.
pub proof fn law_flag_icon_round_trip(code: Seq<char>)
    requires
        code.len() == 2,
        is_ascii_chars(code),
    ensures
        code_cut_ok(flag_icon(code)),
        icon_code(flag_icon(code)) == code,
        listed_code(flag_icon(code)) == code,
{
    reveal_strlit(":flag_");
    reveal_strlit(":");
    let icon = flag_icon(code);
    assert(is_ascii_chars(":flag_"@));
    assert(is_ascii_chars(":"@));
    assert(is_ascii_chars(icon)) by {
        assert(icon =~= (":flag_"@ + code) + ":"@);
        is_ascii_chars_concat(":flag_"@ + code, ":flag_"@, code);
        is_ascii_chars_concat(icon, ":flag_"@ + code, ":"@);
    }
    let b = utf8(icon);
    is_ascii_chars_encode_utf8(icon);
    assert(b.len() == 9);
    let sub = b.subrange(6, 8);
    is_ascii_chars_encode_utf8(code);
    let cb = encode_utf8(code);
    assert(icon[6] == code[0] && icon[7] == code[1]);
    assert(sub =~= cb);
    assert(decode_utf8(cb) == code);
    assert(is_char_boundary(b, 6) <==> !is_continuation_byte(b[6]));
    assert(is_char_boundary(b, 8) <==> !is_continuation_byte(b[8]));
    assert((icon[6] as u32) < 128) by {
        assert('\0' <= icon[6] <= '\u{7f}');
    }
    assert((icon[8] as u32) < 128) by {
        assert('\0' <= icon[8] <= '\u{7f}');
    }
    assert(b[6] == icon[6] as u8 && b[8] == icon[8] as u8);
    assert(b[6] < 128 && b[8] < 128);
    assert(!is_continuation_byte(b[6]));
    assert(!is_continuation_byte(b[8]));
}

} // verus!
