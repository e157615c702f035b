//! The replies of the launcher's UI commands that are computed rather than
//! fetched.
use vstd::prelude::*;

verus! {

/// The file that holds the search bar's background picture.
pub const BACKGROUND_PICTURE_FILE: &'static str = "background.png";

/// The background-picture command's reply and follow-up.
pub struct BackgroundReply {
    /// The picture handed to the search bar.
    pub picture: Vec<u8>,
    /// Whether an empty background file is to be uploaded.
    pub upload_empty: bool,
}

/// The reply to a request for the background picture, given what its
/// download gave: the picture when there is one; otherwise an empty
/// picture, and an empty background file is uploaded.
pub fn background_picture_reply(downloaded: Option<Vec<u8>>) -> (r: BackgroundReply)
    ensures
        match downloaded {
            Some(d) => r.picture@ == d@ && !r.upload_empty,
            None => r.picture@.len() == 0 && r.upload_empty,
        },
{
    match downloaded {
        Some(data) => BackgroundReply { picture: data, upload_empty: false },
        None => BackgroundReply { picture: Vec::new(), upload_empty: true },
    }
}

/// The decimal digit of `n` (below 10).
pub open spec fn digit_char(n: int) -> char {
    if n == 0 { '0' }
    else if n == 1 { '1' }
    else if n == 2 { '2' }
    else if n == 3 { '3' }
    else if n == 4 { '4' }
    else if n == 5 { '5' }
    else if n == 6 { '6' }
    else if n == 7 { '7' }
    else if n == 8 { '8' }
    else { '9' }
}

/// `n` in decimal, without leading zeros.
pub open spec fn decimal(n: nat) -> Seq<char>
    decreases n,
{
    if n < 10 {
        seq![digit_char(n as int)]
    } else {
        decimal(n / 10) + seq![digit_char((n % 10) as int)]
    }
}

fn digit(n: u8) -> (r: &'static str)
    requires
        n < 10,
    ensures
        r@ == seq![digit_char(n as int)],
{
    proof {
        reveal_strlit("0");
        reveal_strlit("1");
        reveal_strlit("2");
        reveal_strlit("3");
        reveal_strlit("4");
        reveal_strlit("5");
        reveal_strlit("6");
        reveal_strlit("7");
        reveal_strlit("8");
        reveal_strlit("9");
    }
    if n == 0 { "0" }
    else if n == 1 { "1" }
    else if n == 2 { "2" }
    else if n == 3 { "3" }
    else if n == 4 { "4" }
    else if n == 5 { "5" }
    else if n == 6 { "6" }
    else if n == 7 { "7" }
    else if n == 8 { "8" }
    else { "9" }
}

/// Appends `n` in decimal.
fn append_decimal(s: &mut String, n: u8)
    ensures
        final(s)@ == old(s)@ + decimal(n as nat),
{
    if n >= 100 {
        s.append(digit(n / 100));
        s.append(digit((n / 10) % 10));
        s.append(digit(n % 10));
        let ghost m = n as int;
        assert(decimal(n as nat) =~= seq![digit_char(m / 100), digit_char((m / 10) % 10), digit_char(m % 10)]) by {
            assert(decimal((m / 10) as nat) == decimal((m / 100) as nat) + seq![digit_char((m / 10) % 10)]);
        }
    } else if n >= 10 {
        s.append(digit(n / 10));
        s.append(digit(n % 10));
        let ghost m = n as int;
        assert(decimal(n as nat) =~= seq![digit_char(m / 10), digit_char(m % 10)]) by {
            assert(decimal((m / 10) as nat) == seq![digit_char(m / 10)]);
        }
    } else {
        s.append(digit(n));
    }
}

/// The CSS colour of a dominant colour, at 80% opacity.
pub open spec fn dominant_color_css_of(r: u8, g: u8, b: u8) -> Seq<char> {
    "rgba("@ + decimal(r as nat) + ", "@ + decimal(g as nat) + ", "@ + decimal(b as nat) + ", 0.8)"@
}

/// The CSS colour `rgba(r, g, b, 0.8)` of a picture's dominant colour.
pub fn dominant_color_css(r: u8, g: u8, b: u8) -> (s: String)
    ensures
        s@ == dominant_color_css_of(r, g, b),
{
    let mut s = String::from_str("rgba(");
    append_decimal(&mut s, r);
    s.append(", ");
    append_decimal(&mut s, g);
    s.append(", ");
    append_decimal(&mut s, b);
    s.append(", 0.8)");
    s
}

} // verus!
