//! Terminal output styling.
//!
//! The two main data structures in this module are `Style`, which holds
//! stylistic information such as the foreground colour, the background colour
//! and other properties such as if the text should be bold, blinking, etc.,
//! and `StyledString`, which is a string paired with a `Style`.
//!
//! In order to format a string, call the `paint()` method on a `Style` or a
//! `Color`, then render the result with `to_string()`. Rendering wraps the
//! text in an ANSI SGR escape sequence: a prefix of the form `ESC [ codes m`,
//! the text itself unchanged, and the fixed reset suffix `ESC [ 0 m`. A plain
//! style renders to the text alone, with no escape bytes at all.
//!
//! Every rendering function in this module carries a contract that pins the
//! emitted bytes down exactly; the specification functions beside the types
//! are the single place the SGR code tables are written.

use vstd::prelude::*;
use vstd::string::StringExecFns;
use crate::decimal::dec_nat;
use crate::decimal::push_dec;

verus! {

/// A `Color` is a specific ANSI colour name which can refer to either the
/// foreground or background.
///
/// It can also be a custom value from 0 to 255 via the `Fixed(u8)` variant for
/// terminals that have 256-colour support. True-colour is supported via the
/// `Rgb(u8, u8, u8)` variant.
#[derive(Debug, Clone, Copy, PartialEq, Eq, Structural)]
pub enum Color {
    /// Foreground code `30`, background code `40`.
    Black,
    /// Foreground code `31`, background code `41`.
    Red,
    /// Foreground code `32`, background code `42`.
    Green,
    /// Foreground code `33`, background code `43`.
    Yellow,
    /// Foreground code `34`, background code `44`.
    Blue,
    /// Foreground code `35`, background code `45`.
    Purple,
    /// Foreground code `36`, background code `46`.
    Cyan,
    /// Foreground code `37`, background code `47`.
    White,
    /// A value from 0 to 255 for use on terminals that have 256-colour
    /// support; rendered as `38;5;{n}` (foreground) or `48;5;{n}`
    /// (background).
    Fixed(u8),
    /// A red, green and blue value, each between 0 and 255, for terminals
    /// with true-colour support; rendered as `38;2;{r};{g};{b}` (foreground)
    /// or `48;2;{r};{g};{b}` (background).
    Rgb(u8, u8, u8),
}

/// The SGR code list that selects `c` as the foreground colour: the fixed
/// two-digit codes 30 through 37 for the named colours in enumeration order,
/// `38;5;{n}` for `Fixed(n)`, and `38;2;{r};{g};{b}` for `Rgb(r, g, b)`.
pub open spec fn foreground_code_spec(c: Color) -> Seq<char> {
    match c {
        Color::Black => "30"@,
        Color::Red => "31"@,
        Color::Green => "32"@,
        Color::Yellow => "33"@,
        Color::Blue => "34"@,
        Color::Purple => "35"@,
        Color::Cyan => "36"@,
        Color::White => "37"@,
        Color::Fixed(n) => "38;5;"@ + dec_nat(n as int),
        Color::Rgb(r, g, b) => "38;2;"@ + dec_nat(r as int) + ";"@ + dec_nat(g as int) + ";"@
            + dec_nat(b as int),
    }
}

/// The SGR code list that selects `c` as the background colour: the same
/// table as the foreground shifted by 10 (40 through 47), `48;5;{n}` for
/// `Fixed(n)`, and `48;2;{r};{g};{b}` for `Rgb(r, g, b)`.
pub open spec fn background_code_spec(c: Color) -> Seq<char> {
    match c {
        Color::Black => "40"@,
        Color::Red => "41"@,
        Color::Green => "42"@,
        Color::Yellow => "43"@,
        Color::Blue => "44"@,
        Color::Purple => "45"@,
        Color::Cyan => "46"@,
        Color::White => "47"@,
        Color::Fixed(n) => "48;5;"@ + dec_nat(n as int),
        Color::Rgb(r, g, b) => "48;2;"@ + dec_nat(r as int) + ";"@ + dec_nat(g as int) + ";"@
            + dec_nat(b as int),
    }
}

impl Color {
    /// Convenience method for creating a `StyledString` with the foreground
    /// set, without having to manually create a `Style` or use
    /// `<color>.normal().paint()`.
    pub fn paint(self, string: &str) -> (r: StyledString)
        ensures
            r.style == with_foreground(plain_spec(), self),
            r.string@ == string@,
    {
        self.normal().paint(string)
    }

    /// Returns a `Style` with the foreground colour set to this colour.
    pub fn normal(self) -> (r: Style)
        ensures
            r == with_foreground(plain_spec(), self),
    {
        Style::new().foreground(self)
    }

    /// The same as `Color::normal()`, but also sets the background colour.
    pub fn on(self, background: Color) -> (r: Style)
        ensures
            r == with_background(with_foreground(plain_spec(), self), background),
    {
        self.normal().background(background)
    }

    /// Returns a `Style` with the 'bold' property set and the foreground
    /// colour set to this colour.
    pub fn bold(self) -> (r: Style)
        ensures
            r == with_bold(with_foreground(plain_spec(), self)),
    {
        self.normal().bold()
    }

    /// Returns a `Style` with the 'dimmed' property set and the foreground
    /// colour set to this colour.
    pub fn dimmed(self) -> (r: Style)
        ensures
            r == with_dimmed(with_foreground(plain_spec(), self)),
    {
        self.normal().dimmed()
    }

    /// Returns a `Style` with the 'italic' property set and the foreground
    /// colour set to this colour.
    pub fn italic(self) -> (r: Style)
        ensures
            r == with_italic(with_foreground(plain_spec(), self)),
    {
        self.normal().italic()
    }

    /// Returns a `Style` with the 'underline' property set and the foreground
    /// colour set to this colour.
    pub fn underline(self) -> (r: Style)
        ensures
            r == with_underline(with_foreground(plain_spec(), self)),
    {
        self.normal().underline()
    }

    /// Returns a `Style` with the 'blink' property set and the foreground
    /// colour set to this colour.
    pub fn blink(self) -> (r: Style)
        ensures
            r == with_blink(with_foreground(plain_spec(), self)),
    {
        self.normal().blink()
    }

    /// Returns a `Style` with the 'reverse' property set and the foreground
    /// colour set to this colour.
    pub fn reverse(self) -> (r: Style)
        ensures
            r == with_reverse(with_foreground(plain_spec(), self)),
    {
        self.normal().reverse()
    }

    /// Returns a `Style` with the 'hidden' property set and the foreground
    /// colour set to this colour.
    pub fn hidden(self) -> (r: Style)
        ensures
            r == with_hidden(with_foreground(plain_spec(), self)),
    {
        self.normal().hidden()
    }

    /// Appends this colour's foreground code list to `out`.
    pub fn write_foreground_code(&self, out: &mut String)
        ensures
            final(out)@ == old(out)@ + foreground_code_spec(*self),
    {
        match *self {
            Color::Black => out.append("30"),
            Color::Red => out.append("31"),
            Color::Green => out.append("32"),
            Color::Yellow => out.append("33"),
            Color::Blue => out.append("34"),
            Color::Purple => out.append("35"),
            Color::Cyan => out.append("36"),
            Color::White => out.append("37"),
            Color::Fixed(n) => {
                out.append("38;5;");
                push_dec(out, n as u16);
                proof {
                    assert(out@ =~= old(out)@ + foreground_code_spec(*self));
                }
            },
            Color::Rgb(r, g, b) => {
                out.append("38;2;");
                push_dec(out, r as u16);
                out.append(";");
                push_dec(out, g as u16);
                out.append(";");
                push_dec(out, b as u16);
                proof {
                    assert(out@ =~= old(out)@ + foreground_code_spec(*self));
                }
            },
        }
    }

    /// Appends this colour's background code list to `out`.
    pub fn write_background_code(&self, out: &mut String)
        ensures
            final(out)@ == old(out)@ + background_code_spec(*self),
    {
        match *self {
            Color::Black => out.append("40"),
            Color::Red => out.append("41"),
            Color::Green => out.append("42"),
            Color::Yellow => out.append("43"),
            Color::Blue => out.append("44"),
            Color::Purple => out.append("45"),
            Color::Cyan => out.append("46"),
            Color::White => out.append("47"),
            Color::Fixed(n) => {
                out.append("48;5;");
                push_dec(out, n as u16);
                proof {
                    assert(out@ =~= old(out)@ + background_code_spec(*self));
                }
            },
            Color::Rgb(r, g, b) => {
                out.append("48;2;");
                push_dec(out, r as u16);
                out.append(";");
                push_dec(out, g as u16);
                out.append(";");
                push_dec(out, b as u16);
                proof {
                    assert(out@ =~= old(out)@ + background_code_spec(*self));
                }
            },
        }
    }
}

/// A collection of properties that are used to format a string.
///
/// A `Style` is an immutable value: every builder method returns a new
/// `Style` with exactly one field overridden and leaves the receiver
/// untouched. The `with_*` specification functions below say precisely what
/// each builder returns.
#[derive(Debug, Clone, Copy, PartialEq, Eq, Structural)]
pub struct Style {
    pub foreground: Option<Color>,
    pub background: Option<Color>,
    pub bold: bool,
    pub dimmed: bool,
    pub italic: bool,
    pub underline: bool,
    pub blink: bool,
    pub reverse: bool,
    pub hidden: bool,
}

/// The canonical plain style: no colours, no attributes.
pub open spec fn plain_spec() -> Style {
    Style {
        foreground: None,
        background: None,
        bold: false,
        dimmed: false,
        italic: false,
        underline: false,
        blink: false,
        reverse: false,
        hidden: false,
    }
}

/// Whether `s` is the canonical plain style.
pub open spec fn is_plain_spec(s: Style) -> bool {
    s == plain_spec()
}

/// `s` with the foreground set to `c`, all other fields unchanged.
pub open spec fn with_foreground(s: Style, c: Color) -> Style {
    Style { foreground: Some(c), ..s }
}

/// `s` with the background set to `c`, all other fields unchanged.
pub open spec fn with_background(s: Style, c: Color) -> Style {
    Style { background: Some(c), ..s }
}

/// `s` with the 'bold' property set, all other fields unchanged.
pub open spec fn with_bold(s: Style) -> Style {
    Style { bold: true, ..s }
}

/// `s` with the 'dimmed' property set, all other fields unchanged.
pub open spec fn with_dimmed(s: Style) -> Style {
    Style { dimmed: true, ..s }
}

/// `s` with the 'italic' property set, all other fields unchanged.
pub open spec fn with_italic(s: Style) -> Style {
    Style { italic: true, ..s }
}

/// `s` with the 'underline' property set, all other fields unchanged.
pub open spec fn with_underline(s: Style) -> Style {
    Style { underline: true, ..s }
}

/// `s` with the 'blink' property set, all other fields unchanged.
pub open spec fn with_blink(s: Style) -> Style {
    Style { blink: true, ..s }
}

/// `s` with the 'reverse' property set, all other fields unchanged.
pub open spec fn with_reverse(s: Style) -> Style {
    Style { reverse: true, ..s }
}

/// `s` with the 'hidden' property set, all other fields unchanged.
pub open spec fn with_hidden(s: Style) -> Style {
    Style { hidden: true, ..s }
}

/// One step of building the semicolon-separated SGR code list. If `on`
/// holds, `code` is appended to `acc`, preceded by a semicolon exactly when
/// something was already emitted (`any`); otherwise nothing changes. Returns
/// the new list and whether anything has been emitted so far.
pub open spec fn code_list_step(acc: Seq<char>, any: bool, on: bool, code: Seq<char>) -> (
    Seq<char>,
    bool,
) {
    if on {
        if any {
            (acc + ";"@ + code, true)
        } else {
            (acc + code, true)
        }
    } else {
        (acc, any)
    }
}

/// The foreground code list of an optional colour; empty when absent.
pub open spec fn foreground_part(c: Option<Color>) -> Seq<char> {
    match c {
        Some(c) => foreground_code_spec(c),
        None => Seq::empty(),
    }
}

/// The background code list of an optional colour; empty when absent.
pub open spec fn background_part(c: Option<Color>) -> Seq<char> {
    match c {
        Some(c) => background_code_spec(c),
        None => Seq::empty(),
    }
}

/// The complete semicolon-separated SGR code list of `s`, in the fixed
/// emission order: bold `1`, dimmed `2`, italic `3`, underline `4`, blink
/// `5`, reverse `6`, hidden `7`, then the foreground colour's codes, then
/// the background colour's codes. Only set properties contribute; there is
/// no leading or trailing semicolon.
pub open spec fn code_list_spec(s: Style) -> Seq<char> {
    let acc = code_list_step(Seq::empty(), false, s.bold, "1"@);
    let acc = code_list_step(acc.0, acc.1, s.dimmed, "2"@);
    let acc = code_list_step(acc.0, acc.1, s.italic, "3"@);
    let acc = code_list_step(acc.0, acc.1, s.underline, "4"@);
    let acc = code_list_step(acc.0, acc.1, s.blink, "5"@);
    let acc = code_list_step(acc.0, acc.1, s.reverse, "6"@);
    let acc = code_list_step(acc.0, acc.1, s.hidden, "7"@);
    let acc = code_list_step(acc.0, acc.1, s.foreground is Some, foreground_part(s.foreground));
    let acc = code_list_step(acc.0, acc.1, s.background is Some, background_part(s.background));
    acc.0
}

/// Concatenation of character sequences is associative; regrouping the four
/// pieces of a prefix does not change the bytes.
proof fn lemma_concat4_assoc(a: Seq<char>, b: Seq<char>, c: Seq<char>, d: Seq<char>)
    ensures
        a + b + c + d == a + (b + c + d),
{
    assert(a + b + c + d =~= a + (b + c + d));
}

/// The escape bytes written before styled text: empty for the plain style,
/// otherwise `ESC [` followed by the code list followed by `m`.
pub open spec fn prefix_spec(s: Style) -> Seq<char> {
    if is_plain_spec(s) {
        Seq::empty()
    } else {
        "\u{1b}["@ + code_list_spec(s) + "m"@
    }
}

/// The escape bytes written after styled text: empty for the plain style,
/// otherwise the fixed reset sequence `ESC [ 0 m`.
pub open spec fn suffix_spec(s: Style) -> Seq<char> {
    if is_plain_spec(s) {
        Seq::empty()
    } else {
        "\u{1b}[0m"@
    }
}

/// Performs one `code_list_step` on the buffer `out`, which holds `base`
/// followed by the code list built so far (`acc`): appends `code`, preceded
/// by a semicolon when `any` holds, or nothing when `on` does not hold.
/// Returns the new "anything emitted yet" flag.
fn append_code(
    out: &mut String,
    any: bool,
    on: bool,
    code: &str,
    Ghost(base): Ghost<Seq<char>>,
    Ghost(acc): Ghost<Seq<char>>,
) -> (r: bool)
    requires
        old(out)@ == base + acc,
    ensures
        final(out)@ == base + code_list_step(acc, any, on, code@).0,
        r == code_list_step(acc, any, on, code@).1,
{
    if on {
        if any {
            out.append(";");
            out.append(code);
            proof {
                assert(out@ =~= base + (acc + ";"@ + code@));
            }
        } else {
            out.append(code);
            proof {
                assert(out@ =~= base + (acc + code@));
            }
        }
        true
    } else {
        any
    }
}

/// Performs the foreground-colour `code_list_step` on the buffer `out`,
/// which holds `base` followed by the code list built so far (`acc`).
fn append_foreground(
    out: &mut String,
    any: bool,
    c: &Option<Color>,
    Ghost(base): Ghost<Seq<char>>,
    Ghost(acc): Ghost<Seq<char>>,
) -> (r: bool)
    requires
        old(out)@ == base + acc,
    ensures
        final(out)@ == base + code_list_step(acc, any, *c is Some, foreground_part(*c)).0,
        r == code_list_step(acc, any, *c is Some, foreground_part(*c)).1,
{
    if let Some(fg) = c {
        if any {
            out.append(";");
            fg.write_foreground_code(out);
            proof {
                assert(out@ =~= base + (acc + ";"@ + foreground_part(*c)));
            }
        } else {
            fg.write_foreground_code(out);
            proof {
                assert(out@ =~= base + (acc + foreground_part(*c)));
            }
        }
        true
    } else {
        any
    }
}

/// Performs the background-colour `code_list_step` on the buffer `out`,
/// which holds `base` followed by the code list built so far (`acc`).
fn append_background(
    out: &mut String,
    any: bool,
    c: &Option<Color>,
    Ghost(base): Ghost<Seq<char>>,
    Ghost(acc): Ghost<Seq<char>>,
) -> (r: bool)
    requires
        old(out)@ == base + acc,
    ensures
        final(out)@ == base + code_list_step(acc, any, *c is Some, background_part(*c)).0,
        r == code_list_step(acc, any, *c is Some, background_part(*c)).1,
{
    if let Some(bg) = c {
        if any {
            out.append(";");
            bg.write_background_code(out);
            proof {
                assert(out@ =~= base + (acc + ";"@ + background_part(*c)));
            }
        } else {
            bg.write_background_code(out);
            proof {
                assert(out@ =~= base + (acc + background_part(*c)));
            }
        }
        true
    } else {
        any
    }
}

impl Style {
    /// Creates a new `Style` without any formatting.
    pub fn new() -> (r: Style)
        ensures
            r == plain_spec(),
    {
        Style {
            foreground: None,
            background: None,
            bold: false,
            dimmed: false,
            italic: false,
            underline: false,
            blink: false,
            reverse: false,
            hidden: false,
        }
    }

    /// Applies the `Style` to a string, yielding a `StyledString`.
    pub fn paint(self, string: &str) -> (r: StyledString)
        ensures
            r.style == self,
            r.string@ == string@,
    {
        StyledString { string: string.to_owned(), style: self }
    }

    /// Sets the foreground to the given colour.
    pub fn foreground(&self, color: Color) -> (r: Style)
        ensures
            r == with_foreground(*self, color),
    {
        Style { foreground: Some(color), ..*self }
    }

    /// Sets the background to the given colour.
    pub fn background(&self, color: Color) -> (r: Style)
        ensures
            r == with_background(*self, color),
    {
        Style { background: Some(color), ..*self }
    }

    /// Applies the 'bold' property.
    pub fn bold(&self) -> (r: Style)
        ensures
            r == with_bold(*self),
    {
        Style { bold: true, ..*self }
    }

    /// Applies the 'dimmed' property.
    pub fn dimmed(&self) -> (r: Style)
        ensures
            r == with_dimmed(*self),
    {
        Style { dimmed: true, ..*self }
    }

    /// Applies the 'italic' property.
    pub fn italic(&self) -> (r: Style)
        ensures
            r == with_italic(*self),
    {
        Style { italic: true, ..*self }
    }

    /// Applies the 'underline' property.
    pub fn underline(&self) -> (r: Style)
        ensures
            r == with_underline(*self),
    {
        Style { underline: true, ..*self }
    }

    /// Applies the 'blink' property.
    pub fn blink(&self) -> (r: Style)
        ensures
            r == with_blink(*self),
    {
        Style { blink: true, ..*self }
    }

    /// Applies the 'reverse' property.
    pub fn reverse(&self) -> (r: Style)
        ensures
            r == with_reverse(*self),
    {
        Style { reverse: true, ..*self }
    }

    /// Applies the 'hidden' property.
    pub fn hidden(&self) -> (r: Style)
        ensures
            r == with_hidden(*self),
    {
        Style { hidden: true, ..*self }
    }

    /// Returns true if this `Style` has no colours or properties set.
    pub fn is_plain(&self) -> (r: bool)
        ensures
            r == is_plain_spec(*self),
    {
        let plain = Style::new();
        *self == plain
    }

    /// Appends the ANSI escape codes that go before styled text to `out`:
    /// nothing for the plain style, the `ESC [ codes m` prefix otherwise.
    pub fn write_prefix(&self, out: &mut String)
        ensures
            final(out)@ == old(out)@ + prefix_spec(*self),
    {
        if self.is_plain() {
            proof {
                Seq::<char>::add_empty_right(old(out)@, prefix_spec(*self));
            }
            return ;
        }
        out.append("\u{1b}[");
        let ghost base = out@;
        proof {
            assert(base + Seq::<char>::empty() =~= base);
        }
        let ghost acc0 = Seq::<char>::empty();
        let ghost acc1 = code_list_step(acc0, false, self.bold, "1"@);
        let mut any: bool = append_code(out, false, self.bold, "1", Ghost(base), Ghost(acc0));
        let ghost acc2 = code_list_step(acc1.0, acc1.1, self.dimmed, "2"@);
        any = append_code(out, any, self.dimmed, "2", Ghost(base), Ghost(acc1.0));
        let ghost acc3 = code_list_step(acc2.0, acc2.1, self.italic, "3"@);
        any = append_code(out, any, self.italic, "3", Ghost(base), Ghost(acc2.0));
        let ghost acc4 = code_list_step(acc3.0, acc3.1, self.underline, "4"@);
        any = append_code(out, any, self.underline, "4", Ghost(base), Ghost(acc3.0));
        let ghost acc5 = code_list_step(acc4.0, acc4.1, self.blink, "5"@);
        any = append_code(out, any, self.blink, "5", Ghost(base), Ghost(acc4.0));
        let ghost acc6 = code_list_step(acc5.0, acc5.1, self.reverse, "6"@);
        any = append_code(out, any, self.reverse, "6", Ghost(base), Ghost(acc5.0));
        let ghost acc7 = code_list_step(acc6.0, acc6.1, self.hidden, "7"@);
        any = append_code(out, any, self.hidden, "7", Ghost(base), Ghost(acc6.0));
        let ghost acc8 = code_list_step(
            acc7.0,
            acc7.1,
            self.foreground is Some,
            foreground_part(self.foreground),
        );
        any = append_foreground(out, any, &self.foreground, Ghost(base), Ghost(acc7.0));
        let ghost acc9 = code_list_step(
            acc8.0,
            acc8.1,
            self.background is Some,
            background_part(self.background),
        );
        let _ = append_background(out, any, &self.background, Ghost(base), Ghost(acc8.0));
        proof {
            assert(out@ == base + acc9.0);
            assert(acc9.0 == code_list_spec(*self));
        }
        out.append("m");
        proof {
            lemma_concat4_assoc(old(out)@, "\u{1b}["@, code_list_spec(*self), "m"@);
        }
    }

    /// Appends the ANSI escape codes that go after styled text to `out`:
    /// nothing for the plain style, the reset sequence otherwise.
    pub fn write_suffix(&self, out: &mut String)
        ensures
            final(out)@ == old(out)@ + suffix_spec(*self),
    {
        if self.is_plain() {
            proof {
                Seq::<char>::add_empty_right(old(out)@, suffix_spec(*self));
            }
        } else {
            out.append("\u{1b}[0m");
        }
    }
}

impl Default for Style {
    /// The default `Style` is the canonical plain style.
    fn default() -> (r: Style)
        ensures
            r == plain_spec(),
    {
        Style::new()
    }
}

/// The full rendering of `text` under the style `s`: the style's prefix, the
/// text itself unchanged, and the style's suffix. For the plain style both
/// the prefix and the suffix are empty, so the text passes through
/// byte-identical.
pub open spec fn render_spec(s: Style, text: Seq<char>) -> Seq<char> {
    prefix_spec(s) + text + suffix_spec(s)
}

/// A string coupled with a `Style` in order to display it in a terminal.
///
/// It can be turned into a string with the `to_string()` method, whose
/// contract pins the rendering down to `render_spec` of its two fields.
#[derive(Debug, Clone)]
pub struct StyledString {
    pub string: String,
    pub style: Style,
}

impl StyledString {
    /// Renders this string with its style: the style's escape-code prefix,
    /// the raw content verbatim, and the style's reset suffix.
    pub fn to_string(&self) -> (r: String)
        ensures
            r@ == render_spec(self.style, self.string@),
    {
        let mut out = String::new();
        proof {
            Seq::<char>::add_empty_left(Seq::<char>::empty(), prefix_spec(self.style));
        }
        self.style.write_prefix(&mut out);
        out.append(self.string.as_str());
        self.style.write_suffix(&mut out);
        out
    }
}

impl PartialEq for StyledString {
    /// Two `StyledString`s are equal when their text and their style fields
    /// are equal, value by value.
    fn eq(&self, other: &StyledString) -> (r: bool) {
        self.string == other.string && self.style == other.style
    }
}

impl vstd::std_specs::cmp::PartialEqSpecImpl for StyledString {
    open spec fn obeys_eq_spec() -> bool {
        true
    }

    open spec fn eq_spec(&self, other: &StyledString) -> bool {
        self.string@ == other.string@ && self.style == other.style
    }
}

impl From<String> for StyledString {
    /// A plain piece of text with no explicit style: the pairing of the text
    /// with the canonical plain style, which renders it unchanged.
    fn from(string: String) -> (r: StyledString)
        ensures
            r == (StyledString { string, style: plain_spec() }),
    {
        StyledString { string, style: Style::new() }
    }
}

impl vstd::std_specs::convert::FromSpecImpl<String> for StyledString {
    open spec fn obeys_from_spec() -> bool {
        true
    }

    open spec fn from_spec(string: String) -> StyledString {
        StyledString { string, style: plain_spec() }
    }
}

// ---------------------------------------------------------------------------
// Laws of the builder and of rendering.
//
// The proof functions below state, once for all inputs, the guarantees the
// fluent builder and the serializer give together. Rendering itself is a pure
// function of a style's fields (`render_spec`), so any two builder chains
// that end in the same field values render every text identically; the
// lemmas pin down when two chains do end in the same field values, and what
// the rendering of the basic field combinations is, byte for byte.
// ---------------------------------------------------------------------------

/// One step of the fluent builder: which field a `Style` builder method
/// overrides, and with what value.
#[derive(Debug, Clone, Copy, PartialEq, Eq, Structural)]
pub enum Setter {
    Foreground(Color),
    Background(Color),
    Bold,
    Dimmed,
    Italic,
    Underline,
    Blink,
    Reverse,
    Hidden,
}

/// What a builder step does to a style: exactly what the corresponding
/// `Style` method's contract states.
pub open spec fn apply_setter(s: Style, op: Setter) -> Style {
    match op {
        Setter::Foreground(c) => with_foreground(s, c),
        Setter::Background(c) => with_background(s, c),
        Setter::Bold => with_bold(s),
        Setter::Dimmed => with_dimmed(s),
        Setter::Italic => with_italic(s),
        Setter::Underline => with_underline(s),
        Setter::Blink => with_blink(s),
        Setter::Reverse => with_reverse(s),
        Setter::Hidden => with_hidden(s),
    }
}

/// The field a builder step overrides, numbered in the order the fields are
/// declared on `Style`.
pub open spec fn setter_field(op: Setter) -> int {
    match op {
        Setter::Foreground(_) => 0,
        Setter::Background(_) => 1,
        Setter::Bold => 2,
        Setter::Dimmed => 3,
        Setter::Italic => 4,
        Setter::Underline => 5,
        Setter::Blink => 6,
        Setter::Reverse => 7,
        Setter::Hidden => 8,
    }
}

/// Applying the same builder step twice yields a style structurally equal to
/// applying it once.
pub proof fn lemma_setter_idempotent(s: Style, op: Setter)
    ensures
        apply_setter(apply_setter(s, op), op) == apply_setter(s, op),
{
}

/// Builder steps that override different fields commute: two call orders
/// that end in the same field values build the same style, and therefore
/// render every text byte-identically, since rendering is a function of the
/// style's fields alone.
pub proof fn lemma_setters_commute(s: Style, a: Setter, b: Setter)
    requires
        setter_field(a) != setter_field(b),
    ensures
        apply_setter(apply_setter(s, a), b) == apply_setter(apply_setter(s, b), a),
{
}

/// Two builder chains that differ only in the order of steps overriding
/// different fields serialize every text byte-identically: rendering is a
/// function of the style's fields alone, and such steps commute.
pub proof fn lemma_call_order_renders_identically(s: Style, a: Setter, b: Setter, text: Seq<char>)
    requires
        setter_field(a) != setter_field(b),
    ensures
        render_spec(apply_setter(apply_setter(s, a), b), text) == render_spec(
            apply_setter(apply_setter(s, b), a),
            text,
        ),
{
    lemma_setters_commute(s, a, b);
}

/// A builder step overrides its own field and leaves every other field of
/// the receiver unchanged. In particular, a step applied to a plain style
/// yields a style with exactly one field set; the receiver itself, being
/// taken by shared reference, is never changed at all.
pub proof fn lemma_setter_changes_one_field(s: Style, op: Setter)
    ensures
        setter_field(op) != 0 ==> apply_setter(s, op).foreground == s.foreground,
        setter_field(op) != 1 ==> apply_setter(s, op).background == s.background,
        setter_field(op) != 2 ==> apply_setter(s, op).bold == s.bold,
        setter_field(op) != 3 ==> apply_setter(s, op).dimmed == s.dimmed,
        setter_field(op) != 4 ==> apply_setter(s, op).italic == s.italic,
        setter_field(op) != 5 ==> apply_setter(s, op).underline == s.underline,
        setter_field(op) != 6 ==> apply_setter(s, op).blink == s.blink,
        setter_field(op) != 7 ==> apply_setter(s, op).reverse == s.reverse,
        setter_field(op) != 8 ==> apply_setter(s, op).hidden == s.hidden,
{
}

/// A plain style renders any text to exactly that text: no escape bytes
/// before it, none after it.
pub proof fn lemma_plain_renders_identity(s: Style, text: Seq<char>)
    requires
        is_plain_spec(s),
    ensures
        render_spec(s, text) == text,
{
    Seq::<char>::add_empty_left(prefix_spec(s), text);
    Seq::<char>::add_empty_right(text, suffix_spec(s));
}

/// A style with only the foreground colour set renders text as
/// `ESC [ <foreground codes> m <text> ESC [ 0 m`, for every colour: the
/// named colours with their fixed two-digit codes, `Fixed` with `38;5;{n}`,
/// and `Rgb` with `38;2;{r};{g};{b}`.
pub proof fn lemma_foreground_only_render(c: Color, text: Seq<char>)
    ensures
        render_spec(with_foreground(plain_spec(), c), text) == "\u{1b}["@
            + foreground_code_spec(c) + "m"@ + text + "\u{1b}[0m"@,
{
    let s = with_foreground(plain_spec(), c);
    Seq::<char>::add_empty_left(Seq::<char>::empty(), foreground_code_spec(c));
    assert(code_list_spec(s) == foreground_code_spec(c));
}

/// A style with a foreground and a background colour set renders text as
/// `ESC [ <foreground codes> ; <background codes> m <text> ESC [ 0 m`: the
/// foreground codes come first, then one semicolon, then the background
/// codes.
pub proof fn lemma_foreground_background_render(f: Color, b: Color, text: Seq<char>)
    ensures
        render_spec(with_background(with_foreground(plain_spec(), f), b), text) == "\u{1b}["@
            + foreground_code_spec(f) + ";"@ + background_code_spec(b) + "m"@ + text
            + "\u{1b}[0m"@,
{
    let s = with_background(with_foreground(plain_spec(), f), b);
    Seq::<char>::add_empty_left(Seq::<char>::empty(), foreground_code_spec(f));
    assert(code_list_spec(s) == foreground_code_spec(f) + ";"@ + background_code_spec(b));
    lemma_concat4_assoc("\u{1b}["@, foreground_code_spec(f), ";"@, background_code_spec(b));
}

/// A style with exactly one attribute set and no colours renders text as
/// `ESC [ <digit> m <text> ESC [ 0 m`, with the fixed digit of that
/// attribute: bold 1, dimmed 2, italic 3, underline 4, blink 5, reverse 6,
/// hidden 7 — whatever order of builder calls produced the style.
pub proof fn lemma_single_attribute_render(text: Seq<char>)
    ensures
        render_spec(with_bold(plain_spec()), text) == "\u{1b}["@ + "1"@ + "m"@ + text
            + "\u{1b}[0m"@,
        render_spec(with_dimmed(plain_spec()), text) == "\u{1b}["@ + "2"@ + "m"@ + text
            + "\u{1b}[0m"@,
        render_spec(with_italic(plain_spec()), text) == "\u{1b}["@ + "3"@ + "m"@ + text
            + "\u{1b}[0m"@,
        render_spec(with_underline(plain_spec()), text) == "\u{1b}["@ + "4"@ + "m"@ + text
            + "\u{1b}[0m"@,
        render_spec(with_blink(plain_spec()), text) == "\u{1b}["@ + "5"@ + "m"@ + text
            + "\u{1b}[0m"@,
        render_spec(with_reverse(plain_spec()), text) == "\u{1b}["@ + "6"@ + "m"@ + text
            + "\u{1b}[0m"@,
        render_spec(with_hidden(plain_spec()), text) == "\u{1b}["@ + "7"@ + "m"@ + text
            + "\u{1b}[0m"@,
{
    Seq::<char>::add_empty_left(Seq::<char>::empty(), "1"@);
    Seq::<char>::add_empty_left(Seq::<char>::empty(), "2"@);
    Seq::<char>::add_empty_left(Seq::<char>::empty(), "3"@);
    Seq::<char>::add_empty_left(Seq::<char>::empty(), "4"@);
    Seq::<char>::add_empty_left(Seq::<char>::empty(), "5"@);
    Seq::<char>::add_empty_left(Seq::<char>::empty(), "6"@);
    Seq::<char>::add_empty_left(Seq::<char>::empty(), "7"@);
}

} // verus!
