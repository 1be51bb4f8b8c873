//! VT100/ANSI escape-sequence parser.
//!
//! Turns PTY output bytes into terminal-grid operations. Supports SGR
//! (colors, bold, italic, underline, 24-bit true color), cursor position,
//! screen clear, and the C0 controls a shell emits.

use vstd::prelude::*;

verus! {

/// True-color (24-bit RGB).
#[derive(Debug, Clone, Copy, PartialEq, Eq, Structural)]
pub struct Color {
    pub r: u8,
    pub g: u8,
    pub b: u8,
}

impl Color {
    /// Build a color from its three channels.
    pub fn rgb(r: u8, g: u8, b: u8) -> (c: Self)
        ensures
            c == (Color { r, g, b }),
    {
        Color { r, g, b }
    }
}

/// Cell style attributes.
#[derive(Debug, Clone, Copy, PartialEq, Eq, Structural)]
pub struct CellStyle {
    /// Foreground color
    pub fg: Color,
    /// Background color
    pub bg: Color,
    pub bold: bool,
    pub italic: bool,
    pub underline: bool,
}

/// The default style: light gray on black, no attributes.
pub open spec fn default_style() -> CellStyle {
    CellStyle {
        fg: Color { r: 192, g: 192, b: 192 },
        bg: Color { r: 0, g: 0, b: 0 },
        bold: false,
        italic: false,
        underline: false,
    }
}

impl CellStyle {
    /// The default style (light gray on black, no attributes).
    pub fn default_style() -> (s: Self)
        ensures
            s == default_style(),
    {
        CellStyle {
            fg: Color::rgb(192, 192, 192),
            bg: Color::rgb(0, 0, 0),
            bold: false,
            italic: false,
            underline: false,
        }
    }
}

impl Default for CellStyle {
    fn default() -> (s: Self)
        ensures
            s == default_style(),
    {
        CellStyle::default_style()
    }
}

/// Changes to apply to the terminal grid.
#[derive(Debug, Clone, Copy, PartialEq, Eq, Structural)]
pub enum GridChange {
    PrintChar(char),
    Newline,
    CarriageReturn,
    Tab,
    Backspace,
    ClearScreen,
    CursorMove { row: u16, col: u16 },
    StyleChange(CellStyle),
    ScrollUp,
    ScrollDown,
}

/// Parser state machine states.
#[derive(Debug, Clone, Copy, PartialEq, Eq, Structural)]
pub enum ParserState {
    Ground,
    Escape,
    CsiEntry,
    CsiParam,
}

/// The abstract state of a parser: its state-machine state, the changes it
/// has produced and not yet handed out, and the CSI parameters read so far.
pub ghost struct ParserView {
    pub state: ParserState,
    pub changes: Seq<GridChange>,
    pub params: Seq<u16>,
    pub current_param: Option<u16>,
}

// ---------------------------------------------------------------------------
// SGR (Select Graphic Rendition)
// ---------------------------------------------------------------------------

/// A parameter value clamped to a color channel.
pub open spec fn channel(v: u16) -> u8 {
    if v > 255 { 255u8 } else { v as u8 }
}

/// The effect of one plain SGR code on a style (codes that need following
/// parameters, and unknown codes, leave it unchanged).
pub open spec fn sgr_single(s: CellStyle, code: u16) -> CellStyle {
    if code == 0 { default_style() }
    else if code == 1 { CellStyle { bold: true, ..s } }
    else if code == 3 { CellStyle { italic: true, ..s } }
    else if code == 4 { CellStyle { underline: true, ..s } }
    else if code == 22 { CellStyle { bold: false, ..s } }
    else if code == 23 { CellStyle { italic: false, ..s } }
    else if code == 24 { CellStyle { underline: false, ..s } }
    else if 30 <= code <= 37 { CellStyle { fg: ansi_color(code - 30), ..s } }
    else if code == 39 { CellStyle { fg: default_style().fg, ..s } }
    else if 40 <= code <= 47 { CellStyle { bg: ansi_color(code - 40), ..s } }
    else if code == 49 { CellStyle { bg: default_style().bg, ..s } }
    else if 90 <= code <= 97 { CellStyle { fg: bright_color(code - 90), ..s } }
    else if 100 <= code <= 107 { CellStyle { bg: bright_color(code - 100), ..s } }
    else { s }
}

/// The eight normal ANSI colors, by index.
pub open spec fn ansi_color(i: int) -> Color {
    if i == 0 { Color { r: 0, g: 0, b: 0 } }
    else if i == 1 { Color { r: 205, g: 0, b: 0 } }
    else if i == 2 { Color { r: 0, g: 205, b: 0 } }
    else if i == 3 { Color { r: 205, g: 205, b: 0 } }
    else if i == 4 { Color { r: 0, g: 0, b: 205 } }
    else if i == 5 { Color { r: 205, g: 0, b: 205 } }
    else if i == 6 { Color { r: 0, g: 205, b: 205 } }
    else { Color { r: 229, g: 229, b: 229 } }
}

/// The eight bright ANSI colors, by index.
pub open spec fn bright_color(i: int) -> Color {
    if i == 0 { Color { r: 127, g: 127, b: 127 } }
    else if i == 1 { Color { r: 255, g: 0, b: 0 } }
    else if i == 2 { Color { r: 0, g: 255, b: 0 } }
    else if i == 3 { Color { r: 255, g: 255, b: 0 } }
    else if i == 4 { Color { r: 0, g: 0, b: 255 } }
    else if i == 5 { Color { r: 255, g: 0, b: 255 } }
    else if i == 6 { Color { r: 0, g: 255, b: 255 } }
    else { Color { r: 255, g: 255, b: 255 } }
}

/// Whether parameter `i` starts a true-color sequence `38;2;r;g;b` or
/// `48;2;r;g;b` with all five values present.
pub open spec fn is_true_color_at(params: Seq<u16>, i: int) -> bool {
    &&& (params[i] == 38 || params[i] == 48)
    &&& i + 4 < params.len()
    &&& params[i + 1] == 2
}

/// The color of the true-color sequence starting at parameter `i`.
pub open spec fn true_color_at(params: Seq<u16>, i: int) -> Color {
    Color {
        r: channel(params[i + 2]),
        g: channel(params[i + 3]),
        b: channel(params[i + 4]),
    }
}

/// The style obtained by applying the SGR parameters from index `i` on to `s`.
pub open spec fn sgr_from(params: Seq<u16>, i: int, s: CellStyle) -> CellStyle
    decreases params.len() - i,
{
    if i < 0 || i >= params.len() {
        s
    } else if is_true_color_at(params, i) {
        let c = true_color_at(params, i);
        let s2 = if params[i] == 38 { CellStyle { fg: c, ..s } } else { CellStyle { bg: c, ..s } };
        sgr_from(params, i + 5, s2)
    } else {
        sgr_from(params, i + 1, sgr_single(s, params[i]))
    }
}

/// The style an SGR sequence with these parameters selects (each sequence
/// starts from the default style).
pub open spec fn sgr_style(params: Seq<u16>) -> CellStyle {
    sgr_from(params, 0, default_style())
}

// ---------------------------------------------------------------------------
// The byte-level state machine
// ---------------------------------------------------------------------------

/// The parameter list with the parameter being read (if any) appended.
pub open spec fn flushed(params: Seq<u16>, current: Option<u16>) -> Seq<u16> {
    match current {
        Some(p) => params.push(p),
        None => params,
    }
}

/// A CSI parameter after one more decimal digit (16-bit, wrapping).
pub open spec fn with_digit(current: Option<u16>, digit: u8) -> u16 {
    let p: int = match current {
        Some(p) => p as int,
        None => 0,
    };
    ((p * 10 + digit) % 65536) as u16
}

/// The parser after one changes list append, back in the ground state.
pub open spec fn emit(p: ParserView, c: GridChange) -> ParserView {
    ParserView { changes: p.changes.push(c), ..p }
}

/// The 1-based CSI parameter at `i` (default 1) made 0-based.
pub open spec fn position_param(params: Seq<u16>, i: int) -> u16 {
    if i < params.len() {
        if params[i] == 0 { 0u16 } else { (params[i] - 1) as u16 }
    } else {
        0u16
    }
}

/// Effect of one byte in the ground state.
pub open spec fn step_ground(p: ParserView, b: u8) -> ParserView {
    if b == 0x1b {
        ParserView { state: ParserState::Escape, ..p }
    } else if 0x20 <= b <= 0x7e {
        emit(p, GridChange::PrintChar(b as char))
    } else if b == 0x0a {
        emit(p, GridChange::Newline)
    } else if b == 0x0d {
        emit(p, GridChange::CarriageReturn)
    } else if b == 0x09 {
        emit(p, GridChange::Tab)
    } else if b == 0x08 {
        emit(p, GridChange::Backspace)
    } else if 0x80 <= b <= 0xbf {
        emit(p, GridChange::PrintChar('?'))
    } else {
        p
    }
}

/// Effect of one byte inside a CSI sequence (`entry`: no byte read yet
/// after `ESC [`).
pub open spec fn step_csi(p: ParserView, b: u8, entry: bool) -> ParserView {
    let ground = ParserView { state: ParserState::Ground, ..p };
    if 0x30 <= b <= 0x39 {
        let d = (b - 0x30) as u8;
        if entry {
            ParserView { state: ParserState::CsiParam, current_param: Some(d as u16), ..p }
        } else {
            ParserView { current_param: Some(with_digit(p.current_param, d)), ..p }
        }
    } else if b == 0x3b {
        if entry {
            ParserView {
                state: ParserState::CsiParam,
                params: p.params.push(0),
                current_param: None,
                ..p
            }
        } else {
            let v: u16 = match p.current_param { Some(v) => v, None => 0 };
            ParserView { params: p.params.push(v), current_param: None, ..p }
        }
    } else if b == 0x6d {
        let ps = flushed(p.params, p.current_param);
        ParserView {
            state: ParserState::Ground,
            params: ps,
            changes: p.changes.push(GridChange::StyleChange(sgr_style(ps))),
            ..p
        }
    } else if b == 0x48 {
        let ps = flushed(p.params, p.current_param);
        ParserView {
            state: ParserState::Ground,
            params: ps,
            changes: p.changes.push(
                GridChange::CursorMove { row: position_param(ps, 0), col: position_param(ps, 1) },
            ),
            ..p
        }
    } else if b == 0x4a {
        ParserView {
            state: ParserState::Ground,
            changes: p.changes.push(GridChange::ClearScreen),
            ..p
        }
    } else if b == 0x41 || b == 0x42 {
        ParserView { state: ParserState::Ground, params: flushed(p.params, p.current_param), ..p }
    } else {
        ground
    }
}

/// Effect of one byte on the parser.
pub open spec fn step(p: ParserView, b: u8) -> ParserView {
    match p.state {
        ParserState::Ground => step_ground(p, b),
        ParserState::Escape => if b == 0x5b {
            ParserView {
                state: ParserState::CsiEntry,
                params: Seq::empty(),
                current_param: None,
                ..p
            }
        } else {
            ParserView { state: ParserState::Ground, ..p }
        },
        ParserState::CsiEntry => step_csi(p, b, true),
        ParserState::CsiParam => step_csi(p, b, false),
    }
}

/// Effect of a byte string on the parser, byte by byte.
pub open spec fn feed_spec(p: ParserView, bytes: Seq<u8>) -> ParserView
    decreases bytes.len(),
{
    if bytes.len() == 0 {
        p
    } else {
        step(feed_spec(p, bytes.drop_last()), bytes.last())
    }
}

/// The parser's initial state.
pub open spec fn initial_view() -> ParserView {
    ParserView {
        state: ParserState::Ground,
        changes: Seq::empty(),
        params: Seq::empty(),
        current_param: None,
    }
}

/// Parsing is independent of how the input is split into chunks: feeding
/// `a` then `b` leaves the parser exactly as feeding `a + b` at once.
pub proof fn lemma_feed_chunks(p: ParserView, a: Seq<u8>, b: Seq<u8>)
    ensures
        feed_spec(feed_spec(p, a), b) == feed_spec(p, a + b),
    decreases b.len(),
{
    if b.len() == 0 {
        assert(a + b =~= a);
    } else {
        lemma_feed_chunks(p, a, b.drop_last());
        assert((a + b).drop_last() =~= a + b.drop_last());
        assert((a + b).last() == b.last());
    }
}

/// Changes already produced are never altered or lost by later input: the
/// produced changes of the earlier state are a prefix of the later ones.
pub proof fn lemma_feed_extends_changes(p: ParserView, bytes: Seq<u8>)
    ensures
        p.changes.len() <= feed_spec(p, bytes).changes.len(),
        feed_spec(p, bytes).changes.subrange(0, p.changes.len() as int) == p.changes,
    decreases bytes.len(),
{
    if bytes.len() > 0 {
        lemma_feed_extends_changes(p, bytes.drop_last());
        let q = feed_spec(p, bytes.drop_last());
        assert(step(q, bytes.last()).changes.subrange(0, q.changes.len() as int) == q.changes);
        assert(step(q, bytes.last()).changes.subrange(0, p.changes.len() as int)
            =~= q.changes.subrange(0, p.changes.len() as int));
    }
}

/// Plain text in the ground state maps one-to-one to printed characters:
/// each printable ASCII byte yields exactly one `PrintChar` of that byte,
/// in order, and the parser stays in the ground state.
pub proof fn lemma_plain_text(p: ParserView, bytes: Seq<u8>)
    requires
        p.state == ParserState::Ground,
        forall|i: int| 0 <= i < bytes.len() ==> 0x20 <= #[trigger] bytes[i] <= 0x7e,
    ensures
        feed_spec(p, bytes).state == ParserState::Ground,
        feed_spec(p, bytes).params == p.params,
        feed_spec(p, bytes).current_param == p.current_param,
        feed_spec(p, bytes).changes == p.changes + bytes.map_values(
            |b: u8| GridChange::PrintChar(b as char),
        ),
    decreases bytes.len(),
{
    if bytes.len() == 0 {
        assert(p.changes + bytes.map_values(|b: u8| GridChange::PrintChar(b as char)) =~= p.changes);
    } else {
        let init = bytes.drop_last();
        assert forall|i: int| 0 <= i < init.len() implies 0x20 <= #[trigger] init[i] <= 0x7e by {
            assert(init[i] == bytes[i]);
        }
        lemma_plain_text(p, init);
        assert(bytes.map_values(|b: u8| GridChange::PrintChar(b as char)) =~= init.map_values(
            |b: u8| GridChange::PrintChar(b as char),
        ).push(GridChange::PrintChar(bytes.last() as char)));
        assert(0x20 <= bytes[bytes.len() - 1] <= 0x7e);
    }
}

/// The bytes `ESC [` that open a CSI sequence.
pub open spec fn csi_intro() -> Seq<u8> {
    seq![0x1bu8, 0x5bu8]
}

/// Whether every byte is a decimal digit or `;`: the body of a CSI
/// parameter list.
pub open spec fn is_param_body(body: Seq<u8>) -> bool {
    forall|i: int| 0 <= i < body.len() ==> (0x30 <= #[trigger] body[i] <= 0x39 || body[i] == 0x3b)
}

proof fn lemma_csi_body(p: ParserView, body: Seq<u8>)
    requires
        p.state == ParserState::Ground,
        is_param_body(body),
    ensures
        ({
            let q = feed_spec(p, csi_intro() + body);
            &&& q.state == ParserState::CsiEntry || q.state == ParserState::CsiParam
            &&& q.changes == p.changes
            &&& body.len() == 0 ==> q.state == ParserState::CsiEntry && q.params
                == Seq::<u16>::empty() && q.current_param is None
        }),
    decreases body.len(),
{
    if body.len() == 0 {
        assert(csi_intro() + body =~= csi_intro());
        assert(csi_intro().drop_last() =~= seq![0x1bu8]);
        assert(seq![0x1bu8].drop_last() =~= Seq::<u8>::empty());
        assert(feed_spec(p, Seq::<u8>::empty()) == p);
        let esc = feed_spec(p, seq![0x1bu8]);
        assert(esc == step(p, 0x1bu8));
        assert(esc.state == ParserState::Escape);
        assert(esc.changes == p.changes);
        assert(feed_spec(p, csi_intro()) == step(esc, 0x5bu8));
    } else {
        let init = body.drop_last();
        assert forall|i: int| 0 <= i < init.len() implies (0x30 <= #[trigger] init[i] <= 0x39
            || init[i] == 0x3b) by {
            assert(init[i] == body[i]);
        }
        lemma_csi_body(p, init);
        assert((csi_intro() + body).drop_last() =~= csi_intro() + init);
        assert((csi_intro() + body).last() == body.last());
        assert(0x30 <= body[body.len() - 1] <= 0x39 || body[body.len() - 1] == 0x3b);
    }
}

/// An SGR sequence `ESC [ ps m` fed in the ground state appends exactly one
/// change, the style its parameters select, and returns to the ground
/// state; with no parameters, or the single parameter 0, that style is the
/// default style.
pub proof fn lemma_sgr_run(p: ParserView, body: Seq<u8>)
    requires
        p.state == ParserState::Ground,
        is_param_body(body),
    ensures
        ({
            let q = feed_spec(p, csi_intro() + body + seq![0x6du8]);
            &&& q.state == ParserState::Ground
            &&& q.changes == p.changes.push(GridChange::StyleChange(sgr_style(q.params)))
            &&& (body.len() == 0 || body == seq![0x30u8]) ==> q.changes == p.changes.push(
                GridChange::StyleChange(default_style()),
            )
        }),
{
    lemma_csi_body(p, body);
    let all = csi_intro() + body + seq![0x6du8];
    assert(all.drop_last() =~= csi_intro() + body);
    assert(all.last() == 0x6du8);
    let q = feed_spec(p, all);
    if body.len() == 0 {
        assert(q.params =~= Seq::<u16>::empty());
    }
    if body == seq![0x30u8] {
        let e = Seq::<u8>::empty();
        lemma_csi_body(p, e);
        assert(body.drop_last() =~= e);
        assert((csi_intro() + body).drop_last() =~= csi_intro() + e);
        assert((csi_intro() + body).last() == 0x30u8);
        assert(csi_intro() + e =~= csi_intro());
        assert(q.params =~= seq![0u16]);
        assert(sgr_single(default_style(), 0) == default_style());
        assert(!is_true_color_at(seq![0u16], 0));
        assert(sgr_from(seq![0u16], 1, default_style()) == default_style());
    }
}

/// The decimal digits of `n`, as ASCII bytes, most significant first.
pub open spec fn decimal_bytes(n: nat) -> Seq<u8>
    decreases n,
{
    if n < 10 {
        seq![(0x30 + n) as u8]
    } else {
        decimal_bytes(n / 10).push((0x30 + n % 10) as u8)
    }
}

proof fn lemma_feed_push(p: ParserView, s: Seq<u8>, b: u8)
    ensures
        feed_spec(p, s.push(b)) == step(feed_spec(p, s), b),
{
    assert(s.push(b).drop_last() =~= s);
}

/// Reading the decimal digits of a 16-bit number inside a CSI sequence,
/// at the start of a parameter, leaves that number as the parameter being
/// read.
proof fn lemma_feed_number(p: ParserView, n: nat)
    requires
        n < 65536,
        p.state == ParserState::CsiEntry || (p.state == ParserState::CsiParam
            && p.current_param is None),
    ensures
        ({
            let q = feed_spec(p, decimal_bytes(n));
            &&& q.state == ParserState::CsiParam
            &&& q.current_param == Some(n as u16)
            &&& q.params == p.params
            &&& q.changes == p.changes
        }),
    decreases n,
{
    if n < 10 {
        lemma_feed_push(p, Seq::<u8>::empty(), (0x30 + n) as u8);
        assert(Seq::<u8>::empty().push((0x30 + n) as u8) =~= decimal_bytes(n));
    } else {
        lemma_feed_number(p, n / 10);
        lemma_feed_push(p, decimal_bytes(n / 10), (0x30 + n % 10) as u8);
        assert((n / 10) * 10 + n % 10 == n);
    }
}

/// Cursor positioning `ESC [ r ; c H` fed in the ground state appends
/// exactly one cursor move to row `r - 1` and column `c - 1` (the
/// parameters are 1-based; a zero parameter gives 0), and returns to the
/// ground state; `ESC [ H` without parameters moves to the top left.
pub proof fn lemma_cursor_position_sequence(p: ParserView, r: nat, c: nat)
    requires
        p.state == ParserState::Ground,
        r < 65536,
        c < 65536,
    ensures
        ({
            let q = feed_spec(
                p,
                csi_intro() + decimal_bytes(r) + seq![0x3bu8] + decimal_bytes(c) + seq![0x48u8],
            );
            &&& q.state == ParserState::Ground
            &&& q.changes == p.changes.push(
                GridChange::CursorMove {
                    row: (if r == 0 { 0 } else { r - 1 }) as u16,
                    col: (if c == 0 { 0 } else { c - 1 }) as u16,
                },
            )
        }),
        feed_spec(p, csi_intro() + seq![0x48u8]).state == ParserState::Ground,
        feed_spec(p, csi_intro() + seq![0x48u8]).changes == p.changes.push(
            GridChange::CursorMove { row: 0, col: 0 },
        ),
{
    let e = Seq::<u8>::empty();
    lemma_csi_body(p, e);
    assert(csi_intro() + e =~= csi_intro());
    let q0 = feed_spec(p, csi_intro());
    // `ESC [ H`
    lemma_feed_push(p, csi_intro(), 0x48u8);
    assert(csi_intro().push(0x48u8) =~= csi_intro() + seq![0x48u8]);
    assert(flushed(q0.params, q0.current_param) =~= Seq::<u16>::empty());
    // `ESC [ r`
    lemma_feed_number(q0, r);
    lemma_feed_chunks(p, csi_intro(), decimal_bytes(r));
    let a1 = csi_intro() + decimal_bytes(r);
    let q1 = feed_spec(p, a1);
    // `;`
    lemma_feed_push(p, a1, 0x3bu8);
    assert(a1.push(0x3bu8) =~= a1 + seq![0x3bu8]);
    let a2 = a1 + seq![0x3bu8];
    let q2 = feed_spec(p, a2);
    assert(q2.params =~= seq![r as u16]);
    // `c`
    lemma_feed_number(q2, c);
    lemma_feed_chunks(p, a2, decimal_bytes(c));
    let a3 = a2 + decimal_bytes(c);
    let q3 = feed_spec(p, a3);
    // `H`
    lemma_feed_push(p, a3, 0x48u8);
    assert(a3.push(0x48u8) =~= a3 + seq![0x48u8]);
    let ps = flushed(q3.params, q3.current_param);
    assert(ps =~= seq![r as u16, c as u16]);
}

// ---------------------------------------------------------------------------
// The parser
// ---------------------------------------------------------------------------

/// VT100/ANSI sequence parser.
pub struct VtParser {
    state: ParserState,
    changes: Vec<GridChange>,
    params: Vec<u16>,
    current_param: Option<u16>,
}

impl View for VtParser {
    type V = ParserView;

    closed spec fn view(&self) -> ParserView {
        ParserView {
            state: self.state,
            changes: self.changes@,
            params: self.params@,
            current_param: self.current_param,
        }
    }
}

/// The colour of an SGR colour code whose index is in range.
fn ansi(i: u16) -> (c: Color)
    requires
        i < 8,
    ensures
        c == ansi_color(i as int),
{
    if i == 0 { Color::rgb(0, 0, 0) }
    else if i == 1 { Color::rgb(205, 0, 0) }
    else if i == 2 { Color::rgb(0, 205, 0) }
    else if i == 3 { Color::rgb(205, 205, 0) }
    else if i == 4 { Color::rgb(0, 0, 205) }
    else if i == 5 { Color::rgb(205, 0, 205) }
    else if i == 6 { Color::rgb(0, 205, 205) }
    else { Color::rgb(229, 229, 229) }
}

fn bright(i: u16) -> (c: Color)
    requires
        i < 8,
    ensures
        c == bright_color(i as int),
{
    if i == 0 { Color::rgb(127, 127, 127) }
    else if i == 1 { Color::rgb(255, 0, 0) }
    else if i == 2 { Color::rgb(0, 255, 0) }
    else if i == 3 { Color::rgb(255, 255, 0) }
    else if i == 4 { Color::rgb(0, 0, 255) }
    else if i == 5 { Color::rgb(255, 0, 255) }
    else if i == 6 { Color::rgb(0, 255, 255) }
    else { Color::rgb(255, 255, 255) }
}

fn apply_sgr_code(style: CellStyle, code: u16) -> (s: CellStyle)
    ensures
        s == sgr_single(style, code),
{
    let mut s = style;
    if code == 0 {
        s = CellStyle::default_style();
    } else if code == 1 {
        s.bold = true;
    } else if code == 3 {
        s.italic = true;
    } else if code == 4 {
        s.underline = true;
    } else if code == 22 {
        s.bold = false;
    } else if code == 23 {
        s.italic = false;
    } else if code == 24 {
        s.underline = false;
    } else if 30 <= code && code <= 37 {
        s.fg = ansi(code - 30);
    } else if code == 39 {
        s.fg = CellStyle::default_style().fg;
    } else if 40 <= code && code <= 47 {
        s.bg = ansi(code - 40);
    } else if code == 49 {
        s.bg = CellStyle::default_style().bg;
    } else if 90 <= code && code <= 97 {
        s.fg = bright(code - 90);
    } else if 100 <= code && code <= 107 {
        s.bg = bright(code - 100);
    }
    s
}

fn clamp_channel(v: u16) -> (c: u8)
    ensures
        c == channel(v),
{
    if v > 255 { 255 } else { v as u8 }
}

impl VtParser {
    /// A parser in the ground state with nothing produced.
    pub fn new() -> (p: Self)
        ensures
            p@ == initial_view(),
    {
        VtParser { state: ParserState::Ground, changes: Vec::new(), params: Vec::new(), current_param: None }
    }

    /// Style selected by the collected SGR parameters.
    fn parse_sgr(&mut self)
        ensures
            final(self)@ == (ParserView {
                changes: old(self)@.changes.push(GridChange::StyleChange(sgr_style(old(self)@.params))),
                ..old(self)@
            }),
    {
        let mut style = CellStyle::default_style();
        let mut i: usize = 0;
        let n = self.params.len();
        while i < n
            invariant
                n == self.params@.len(),
                self@ == old(self)@,
                i <= n,
                sgr_from(self.params@, 0, default_style()) == sgr_from(self.params@, i as int, style),
            decreases n - i,
        {
            let param = self.params[i];
            if (param == 38 || param == 48) && n - i > 4 && self.params[i + 1] == 2 {
                let c = Color {
                    r: clamp_channel(self.params[i + 2]),
                    g: clamp_channel(self.params[i + 3]),
                    b: clamp_channel(self.params[i + 4]),
                };
                if param == 38 {
                    style.fg = c;
                } else {
                    style.bg = c;
                }
                i = i + 5;
            } else {
                style = apply_sgr_code(style, param);
                i = i + 1;
            }
        }
        self.changes.push(GridChange::StyleChange(style));
    }

    fn flush_param(&mut self)
        ensures
            final(self)@ == (ParserView {
                params: flushed(old(self)@.params, old(self)@.current_param),
                ..old(self)@
            }),
    {
        if let Some(p) = self.current_param {
            self.params.push(p);
        }
    }

    fn position(&self, i: usize) -> (v: u16)
        ensures
            v == position_param(self@.params, i as int),
    {
        if i < self.params.len() {
            let p = self.params[i];
            if p == 0 { 0 } else { p - 1 }
        } else {
            0
        }
    }

    fn step(&mut self, byte: u8)
        ensures
            final(self)@ == step(old(self)@, byte),
    {
        match self.state {
            ParserState::Ground => {
                if byte == 0x1b {
                    self.state = ParserState::Escape;
                } else if 0x20 <= byte && byte <= 0x7e {
                    self.changes.push(GridChange::PrintChar(byte as char));
                } else if byte == 0x0a {
                    self.changes.push(GridChange::Newline);
                } else if byte == 0x0d {
                    self.changes.push(GridChange::CarriageReturn);
                } else if byte == 0x09 {
                    self.changes.push(GridChange::Tab);
                } else if byte == 0x08 {
                    self.changes.push(GridChange::Backspace);
                } else if 0x80 <= byte && byte <= 0xbf {
                    self.changes.push(GridChange::PrintChar('?'));
                }
            },
            ParserState::Escape => {
                if byte == 0x5b {
                    self.state = ParserState::CsiEntry;
                    self.params.clear();
                    self.current_param = None;
                } else {
                    self.state = ParserState::Ground;
                }
            },
            ParserState::CsiEntry | ParserState::CsiParam => {
                let entry = self.state == ParserState::CsiEntry;
                if 0x30 <= byte && byte <= 0x39 {
                    let d = byte - 0x30;
                    if entry {
                        self.state = ParserState::CsiParam;
                        self.current_param = Some(d as u16);
                    } else {
                        let p: u32 = match self.current_param {
                            Some(p) => p as u32,
                            None => 0,
                        };
                        self.current_param = Some(((p * 10 + d as u32) % 65536) as u16);
                    }
                } else if byte == 0x3b {
                    if entry {
                        self.state = ParserState::CsiParam;
                        self.params.push(0);
                    } else {
                        let v = match self.current_param {
                            Some(v) => v,
                            None => 0,
                        };
                        self.params.push(v);
                    }
                    self.current_param = None;
                } else if byte == 0x6d {
                    self.flush_param();
                    self.parse_sgr();
                    self.state = ParserState::Ground;
                } else if byte == 0x48 {
                    self.flush_param();
                    let row = self.position(0);
                    let col = self.position(1);
                    self.changes.push(GridChange::CursorMove { row, col });
                    self.state = ParserState::Ground;
                } else if byte == 0x4a {
                    self.changes.push(GridChange::ClearScreen);
                    self.state = ParserState::Ground;
                } else if byte == 0x41 || byte == 0x42 {
                    self.flush_param();
                    self.state = ParserState::Ground;
                } else {
                    self.state = ParserState::Ground;
                }
            },
        }
    }

    /// Feed PTY output bytes to the parser.
    pub fn feed(&mut self, data: &[u8])
        ensures
            final(self)@ == feed_spec(old(self)@, data@),
    {
        let n = data.len();
        let mut i: usize = 0;
        while i < n
            invariant
                n == data@.len(),
                i <= n,
                self@ == feed_spec(old(self)@, data@.take(i as int)),
            decreases n - i,
        {
            proof {
                assert(data@.take(i + 1).drop_last() =~= data@.take(i as int));
                assert(data@.take(i + 1).last() == data@[i as int]);
            }
            self.step(data[i]);
            i = i + 1;
        }
        proof {
            assert(data@.take(n as int) =~= data@);
        }
    }

    /// Hand out the changes parsed so far, leaving none behind.
    pub fn drain_changes(&mut self) -> (r: Vec<GridChange>)
        ensures
            r@ == old(self)@.changes,
            final(self)@ == (ParserView { changes: Seq::empty(), ..old(self)@ }),
    {
        let mut out = Vec::new();
        std::mem::swap(&mut out, &mut self.changes);
        out
    }

    /// Back to the initial state, dropping undelivered changes.
    pub fn reset(&mut self)
        ensures
            final(self)@ == initial_view(),
    {
        self.state = ParserState::Ground;
        self.changes.clear();
        self.params.clear();
        self.current_param = None;
    }
}

impl Default for VtParser {
    fn default() -> (p: Self)
        ensures
            p@ == initial_view(),
    {
        VtParser::new()
    }
}

} // verus!
