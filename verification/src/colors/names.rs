use vstd::prelude::*;
use vstd::string::*;
use vstd::utf8::encode_utf8;
use crate::colors::color::Color;
use crate::colors::hex::{from_hex, hex_color};

verus! {

/// How many colour names the table holds.
pub const NAME_COUNT: usize = 148;

/// The colour names, in lower case and without separators.
pub const NAMES: [&'static str; 148] = [
    "aliceblue", "antiquewhite", "aqua", "aquamarine",
    "azure", "beige", "bisque", "black",
    "blanchedalmond", "blue", "blueviolet", "brown",
    "burlywood", "cadetblue", "chartreuse", "chocolate",
    "coral", "cornflowerblue", "cornsilk", "crimson",
    "cyan", "darkblue", "darkcyan", "darkgoldenrod",
    "darkgray", "darkgrey", "darkgreen", "darkkhaki",
    "darkmagenta", "darkolivegreen", "darkorange", "darkorchid",
    "darkred", "darksalmon", "darkseagreen", "darkslateblue",
    "darkslategray", "darkslategrey", "darkturquoise", "darkviolet",
    "deeppink", "deepskyblue", "dimgray", "dimgrey",
    "dodgerblue", "firebrick", "floralwhite", "forestgreen",
    "fuchsia", "gainsboro", "ghostwhite", "gold",
    "goldenrod", "gray", "grey", "green",
    "greenyellow", "honeydew", "hotpink", "indianred",
    "indigo", "ivory", "khaki", "lavender",
    "lavenderblush", "lawngreen", "lemonchiffon", "lightblue",
    "lightcoral", "lightcyan", "lightgoldenrodyellow", "lightgray",
    "lightgrey", "lightgreen", "lightpink", "lightsalmon",
    "lightseagreen", "lightskyblue", "lightslategray", "lightslategrey",
    "lightsteelblue", "lightyellow", "lime", "limegreen",
    "linen", "magenta", "maroon", "mediumaquamarine",
    "mediumblue", "mediumorchid", "mediumpurple", "mediumseagreen",
    "mediumslateblue", "mediumspringgreen", "mediumturquoise", "mediumvioletred",
    "midnightblue", "mintcream", "mistyrose", "moccasin",
    "navajowhite", "navy", "oldlace", "olive",
    "olivedrab", "orange", "orangered", "orchid",
    "palegoldenrod", "palegreen", "paleturquoise", "palevioletred",
    "papayawhip", "peachpuff", "peru", "pink",
    "plum", "powderblue", "purple", "rebeccapurple",
    "red", "rosybrown", "royalblue", "saddlebrown",
    "salmon", "sandybrown", "seagreen", "seashell",
    "sienna", "silver", "skyblue", "slateblue",
    "slategray", "slategrey", "snow", "springgreen",
    "steelblue", "tan", "teal", "thistle",
    "tomato", "turquoise", "violet", "wheat",
    "white", "whitesmoke", "yellow", "yellowgreen",
];

/// The colour of each name, at the same place as the name: red, green and
/// blue as the three low bytes.
pub const CODES: [u32; 148] = [
    0xF0F8FF, 0xFAEBD7, 0x00FFFF, 0x7FFFD4, 0xF0FFFF, 0xF5F5DC,
    0xFFE4C4, 0x000000, 0xFFEBCD, 0x0000FF, 0x8A2BE2, 0xA52A2A,
    0xDEB887, 0x5F9EA0, 0x7FFF00, 0xD2691E, 0xFF7F50, 0x6495ED,
    0xFFF8DC, 0xDC143C, 0x00FFFF, 0x00008B, 0x008B8B, 0xB8860B,
    0xA9A9A9, 0xA9A9A9, 0x006400, 0xBDB76B, 0x8B008B, 0x556B2F,
    0xFF8C00, 0x9932CC, 0x8B0000, 0xE9967A, 0x8FBC8F, 0x483D8B,
    0x2F4F4F, 0x2F4F4F, 0x00CED1, 0x9400D3, 0xFF1493, 0x00BFFF,
    0x696969, 0x696969, 0x1E90FF, 0xB22222, 0xFFFAF0, 0x228B22,
    0xFF00FF, 0xDCDCDC, 0xF8F8FF, 0xFFD700, 0xDAA520, 0x808080,
    0x808080, 0x008000, 0xADFF2F, 0xF0FFF0, 0xFF69B4, 0xCD5C5C,
    0x4B0082, 0xFFFFF0, 0xF0E68C, 0xE6E6FA, 0xFFF0F5, 0x7CFC00,
    0xFFFACD, 0xADD8E6, 0xF08080, 0xE0FFFF, 0xFAFAD2, 0xD3D3D3,
    0xD3D3D3, 0x90EE90, 0xFFB6C1, 0xFFA07A, 0x20B2AA, 0x87CEFA,
    0x778899, 0x778899, 0xB0C4DE, 0xFFFFE0, 0x00FF00, 0x32CD32,
    0xFAF0E6, 0xFF00FF, 0x800000, 0x66CDAA, 0x0000CD, 0xBA55D3,
    0x9370DB, 0x3CB371, 0x7B68EE, 0x00FA9A, 0x48D1CC, 0xC71585,
    0x191970, 0xF5FFFA, 0xFFE4E1, 0xFFE4B5, 0xFFDEAD, 0x000080,
    0xFDF5E6, 0x808000, 0x6B8E23, 0xFFA500, 0xFF4500, 0xDA70D6,
    0xEEE8AA, 0x98FB98, 0xAFEEEE, 0xDB7093, 0xFFEFD5, 0xFFDAB9,
    0xCD853F, 0xFFC0CB, 0xDDA0DD, 0xB0E0E6, 0x800080, 0x663399,
    0xFF0000, 0xBC8F8F, 0x4169E1, 0x8B4513, 0xFA8072, 0xF4A460,
    0x2E8B57, 0xFFF5EE, 0xA0522D, 0xC0C0C0, 0x87CEEB, 0x6A5ACD,
    0x708090, 0x708090, 0xFFFAFA, 0x00FF7F, 0x4682B4, 0xD2B48C,
    0x008080, 0xD8BFD8, 0xFF6347, 0x40E0D0, 0xEE82EE, 0xF5DEB3,
    0xFFFFFF, 0xF5F5F5, 0xFFFF00, 0x9ACD32,
];

/// The opaque colour that a code stands for.
pub open spec fn color_of_code(code: u32) -> Color {
    Color::opaque((code / 0x10000 % 0x100) as u8, (code / 0x100 % 0x100) as u8, (code % 0x100) as u8)
}

/// The table names `key` at place `i`, and at no earlier place.
pub open spec fn listed_at(key: Seq<u8>, i: int) -> bool {
    &&& 0 <= i < NAME_COUNT
    &&& NAMES[i].spec_bytes() == key
    &&& forall|j: int| 0 <= j < i ==> (#[trigger] NAMES[j]).spec_bytes() != key
}

/// The table holds the name `key`.
pub open spec fn listed(key: Seq<u8>) -> bool {
    exists|i: int| 0 <= i < NAME_COUNT && (#[trigger] NAMES[i]).spec_bytes() == key
}

/// The colour that the table gives to the name `key`.
pub open spec fn named_color(key: Seq<u8>) -> Option<Color> {
    if listed(key) {
        Some(color_of_code(CODES[choose|i: int| listed_at(key, i)]))
    } else {
        None
    }
}

/// Tells whether two byte strings are the same.
pub fn same_bytes(left: &[u8], right: &[u8]) -> (same: bool)
    ensures
        same == (left@ == right@),
{
    if left.len() != right.len() {
        return false;
    }
    let mut at: usize = 0;
    while at < left.len()
        invariant
            at <= left@.len(),
            left@.len() == right@.len(),
            left@.take(at as int) == right@.take(at as int),
        decreases left@.len() - at,
    {
        if left[at] != right[at] {
            return false;
        }
        assert(left@.take(at + 1) =~= left@.take(at as int).push(left@[at as int]));
        assert(right@.take(at + 1) =~= right@.take(at as int).push(right@[at as int]));
        at += 1;
    }
    assert(left@.take(at as int) =~= left@);
    assert(right@.take(at as int) =~= right@);
    true
}

/// Red, green and blue of a code, as an opaque colour.
pub fn unpack_code(code: u32) -> (color: Color)
    ensures
        color == color_of_code(code),
{
    Color::new_rgb((code / 0x10000 % 0x100) as u8, (code / 0x100 % 0x100) as u8, (code % 0x100) as u8)
}

/// Looks a colour name up in the table. The name must be written as the
/// table has it.
pub fn lookup_name(key: &[u8]) -> (color: Option<Color>)
    ensures
        color == named_color(key@),
{
    let mut at: usize = 0;
    while at < NAME_COUNT
        invariant
            at <= NAME_COUNT,
            forall|j: int| 0 <= j < at ==> (#[trigger] NAMES[j]).spec_bytes() != key@,
        decreases NAME_COUNT - at,
    {
        if same_bytes(NAMES[at].as_bytes(), key) {
            proof {
                assert(listed_at(key@, at as int));
                let found = choose|i: int| listed_at(key@, i);
                assert(found == at);
            }
            return Some(unpack_code(CODES[at]));
        }
        at += 1;
    }
    None
}

/// The lower-case form of a text, as `str::to_lowercase` gives it.
pub uninterp spec fn lowercase(text: Seq<char>) -> Seq<char>;

/// `str::to_lowercase` maps each character to its Unicode lower-case
/// equivalent. Its result depends on the text alone; what it is, is not
/// stated here.
pub assume_specification[ str::to_lowercase ](text: &str) -> (lowered: String)
    ensures
        lowered@ == lowercase(text@),
;

/// A space or an underscore: what may part the words of a colour name.
pub open spec fn is_separator(byte: u8) -> bool {
    byte == 0x20 || byte == 0x5F
}

/// `text` with its separators taken out.
pub open spec fn without_separators(text: Seq<u8>) -> Seq<u8> {
    text.filter(|byte: u8| !is_separator(byte))
}

/// Takes the spaces and underscores out of `text`.
pub fn strip_separators(text: &[u8]) -> (kept: Vec<u8>)
    ensures
        kept@ == without_separators(text@),
{
    let mut kept: Vec<u8> = Vec::new();
    let mut at: usize = 0;
    proof {
        reveal(Seq::filter);
    }
    while at < text.len()
        invariant
            at <= text@.len(),
            kept@ == without_separators(text@.take(at as int)),
        decreases text@.len() - at,
    {
        let byte = text[at];
        proof {
            reveal(Seq::filter);
            assert(text@.take(at + 1).drop_last() =~= text@.take(at as int));
        }
        if byte != 0x20 && byte != 0x5F {
            kept.push(byte);
        }
        at += 1;
    }
    assert(text@.take(at as int) =~= text@);
    kept
}

/// The colour that a notation stands for, once its lower-case form is known:
/// the colour of the name that is left when the separators are taken out of
/// `lowered`, or else what `text` writes in hexadecimal.
pub open spec fn notation_color(lowered: Seq<u8>, text: Seq<u8>) -> Option<Color> {
    match named_color(without_separators(lowered)) {
        Some(color) => Some(color),
        None => hex_color(text),
    }
}

/// Reads a colour notation whose lower-case form is already at hand.
///
/// `lowered` is looked up as a name, spaces and underscores aside. Where it
/// is none, `name` is read as hexadecimal notation.
pub fn from_lowered_name(lowered: &str, name: &str) -> (color: Option<Color>)
    ensures
        color == notation_color(lowered.spec_bytes(), name.spec_bytes()),
{
    let key = strip_separators(lowered.as_bytes());
    match lookup_name(key.as_slice()) {
        Some(color) => Some(color),
        None => from_hex(name),
    }
}

/// Reads a colour notation: a colour name in any case, with or without
/// spaces and underscores between its words, or hexadecimal notation.
pub fn from_known_name(name: &str) -> (color: Option<Color>)
    ensures
        color == notation_color(encode_utf8(lowercase(name@)), name.spec_bytes()),
{
    let lowered = name.to_lowercase();
    from_lowered_name(lowered.as_str(), name)
}

} // verus!
