use vstd::prelude::*;

verus! {

/// The narrowest terminal, in columns, on which the time is drawn as a banner.
pub const BANNER_MIN_WIDTH: u16 = 60;

/// The character of a decimal digit.
pub open spec fn digit_char(d: nat) -> char {
    if d == 0 {
        '0'
    } else if d == 1 {
        '1'
    } else if d == 2 {
        '2'
    } else if d == 3 {
        '3'
    } else if d == 4 {
        '4'
    } else if d == 5 {
        '5'
    } else if d == 6 {
        '6'
    } else if d == 7 {
        '7'
    } else if d == 8 {
        '8'
    } else {
        '9'
    }
}

/// The decimal digits of `n`, without leading zeros.
pub open spec fn decimal(n: nat) -> Seq<char>
    decreases n,
{
    if n < 10 {
        seq![digit_char(n)]
    } else {
        decimal(n / 10) + seq![digit_char(n % 10)]
    }
}

/// `n` in decimal, padded with a leading zero to at least two digits.
pub open spec fn two_digits(n: nat) -> Seq<char> {
    if n < 10 {
        seq!['0', digit_char(n)]
    } else {
        decimal(n)
    }
}

/// A number of seconds as hours, minutes and seconds: `HH:MM:SS`, each part
/// zero-padded to two digits (the hours take more where there are more).
pub open spec fn hms_text(secs: nat) -> Seq<char> {
    two_digits(secs / 3600) + seq![':'] + two_digits((secs % 3600) / 60) + seq![':']
        + two_digits(secs % 60)
}

fn digit_str(d: u64) -> (r: &'static str)
    requires
        d < 10,
    ensures
        r@ == seq![digit_char(d as nat)],
{
    let r = if d == 0 {
        "0"
    } else if d == 1 {
        "1"
    } else if d == 2 {
        "2"
    } else if d == 3 {
        "3"
    } else if d == 4 {
        "4"
    } else if d == 5 {
        "5"
    } else if d == 6 {
        "6"
    } else if d == 7 {
        "7"
    } else if d == 8 {
        "8"
    } else {
        "9"
    };
    proof {
        reveal_strlit("0");
        reveal_strlit("1");
        reveal_strlit("2");
        reveal_strlit("3");
        reveal_strlit("4");
        reveal_strlit("5");
        reveal_strlit("6");
        reveal_strlit("7");
        reveal_strlit("8");
        reveal_strlit("9");
    }
    assert(r@ =~= seq![digit_char(d as nat)]);
    r
}

fn append_decimal(out: &mut String, n: u64)
    ensures
        final(out)@ == old(out)@ + decimal(n as nat),
    decreases n,
{
    if n >= 10 {
        append_decimal(out, n / 10);
    }
    out.append(digit_str(n % 10));
    assert(final(out)@ =~= old(out)@ + decimal(n as nat));
}

fn append_two_digits(out: &mut String, n: u64)
    ensures
        final(out)@ == old(out)@ + two_digits(n as nat),
{
    if n < 10 {
        out.append(digit_str(0));
    }
    append_decimal(out, n);
    assert(final(out)@ =~= old(out)@ + two_digits(n as nat));
}

fn append_colon(out: &mut String)
    ensures
        final(out)@ == old(out)@ + seq![':'],
{
    proof {
        reveal_strlit(":");
    }
    out.append(":");
    assert(final(out)@ =~= old(out)@ + seq![':']);
}

/// Formats a number of seconds as `HH:MM:SS`.
pub fn format_hms(secs: u64) -> (r: String)
    ensures
        r@ == hms_text(secs as nat),
{
    let mut out = String::new();
    append_two_digits(&mut out, secs / 3600);
    append_colon(&mut out);
    append_two_digits(&mut out, (secs % 3600) / 60);
    append_colon(&mut out);
    append_two_digits(&mut out, secs % 60);
    assert(out@ =~= hms_text(secs as nat));
    out
}

/// How the time is drawn in a frame.
#[derive(Clone, Copy, Debug, PartialEq, Eq, Structural)]
pub enum Presentation {
    /// The plain `HH:MM:SS` text.
    CompactText,
    /// The time drawn in large multi-line glyphs.
    BannerText,
}

/// The color of the time: one while counting down, another once the alarm is on.
#[derive(Clone, Copy, Debug, PartialEq, Eq, Structural)]
pub enum TextColor {
    Countdown,
    Alarm,
}

/// What `text` looks like in the standard banner font, where it can be drawn.
pub uninterp spec fn banner_of(text: Seq<char>) -> Option<Seq<char>>;

/// Relies on figlet_rs: `FIGfont::standard` parses the font bundled with the
/// crate, `FIGfont::convert` lays `text` out in it and the figure's `Display`
/// writes its rows. The font is fixed, so the result depends on `text` alone;
/// an empty text gives none.
#[verifier::external_body]
fn render_banner(text: &str) -> (r: Option<String>)
    ensures
        match r {
            Some(b) => banner_of(text@) == Some(b@),
            None => banner_of(text@).is_none(),
        },
        text@.len() == 0 ==> r.is_none(),
{
    let font = figlet_rs::FIGfont::standard().ok()?;
    Some(font.convert(text)?.to_string())
}

/// The presentation that fits a terminal `width` columns wide.
pub fn presentation_for(width: u16) -> (r: Presentation)
    ensures
        r == presentation_of(width),
{
    if width >= BANNER_MIN_WIDTH {
        Presentation::BannerText
    } else {
        Presentation::CompactText
    }
}

/// The text shown for `compact` in the given presentation, where `banner` is
/// what the banner font made of it: the banner if one was asked for and made,
/// else the compact text.
pub open spec fn shown_text(
    compact: Seq<char>,
    presentation: Presentation,
    banner: Option<Seq<char>>,
) -> Seq<char> {
    match (presentation, banner) {
        (Presentation::BannerText, Some(b)) => b,
        _ => compact,
    }
}

/// Picks the text to show from the compact text and what the banner font made
/// of it.
pub fn choose_text(compact: String, presentation: Presentation, banner: Option<String>) -> (r:
    String)
    ensures
        r@ == shown_text(
            compact@,
            presentation,
            match banner {
                Some(b) => Some(b@),
                None => None,
            },
        ),
{
    match (presentation, banner) {
        (Presentation::BannerText, Some(b)) => b,
        _ => compact,
    }
}

/// The text that shows `secs` seconds on a terminal `width` columns wide: the
/// `HH:MM:SS` text, drawn as a banner where the terminal is wide enough and the
/// banner font can draw it.
pub fn display_text(secs: u64, width: u16) -> (r: String)
    ensures
        r@ == shown_text(hms_text(secs as nat), presentation_of(width), banner_of(hms_text(secs as nat))),
{
    let hms = format_hms(secs);
    let presentation = presentation_for(width);
    match presentation {
        Presentation::BannerText => {
            let banner = render_banner(hms.as_str());
            choose_text(hms, presentation, banner)
        },
        Presentation::CompactText => hms,
    }
}

/// The presentation for a terminal `width` columns wide.
pub open spec fn presentation_of(width: u16) -> Presentation {
    if width >= BANNER_MIN_WIDTH {
        Presentation::BannerText
    } else {
        Presentation::CompactText
    }
}

} // verus!
