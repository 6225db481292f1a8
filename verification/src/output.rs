//! How values are written for the reader: a plain form for debugging and a
//! coloured, indented one. The host hands over a tree of what the engine
//! holds, with numbers and opaque values already written as text; the layout
//! is decided here. The coloured form follows tables as deep as they lie in
//! each other; the plain form leaves out tables below a fixed depth.

use vstd::prelude::*;
use crate::colors::{BLUE, BOLD_YELLOW, CYAN, GREEN, RED, RESET};
use crate::value::ValueKind;
use crate::globals::{quote, quoted};
use crate::report::{compile, compiles, has_match, matched, pattern_of};

verus! {

/// Depth below which the plain form leaves tables out.
pub const MAX_DEPTH: usize = 10;

/// A key that can be written without brackets and quotes: letters and
/// underscores, then digits.
pub const IDENTIFIER_PATTERN: &'static str = "^[A-Za-z_]+[0-9]*$";

/// The key of a table entry, as far as the layout needs it.
#[derive(Clone, Debug, PartialEq, Eq)]
pub enum ShownKey {
    /// A text key.
    Text(String),
    /// A whole number, as the engine writes it.
    Integer(String),
    /// A number, as the engine writes it.
    Number(String),
    /// A function.
    Function,
    /// Any other key, as the engine writes it.
    Other(String),
}

/// A value, as far as the layout needs it.
pub enum Shown {
    Nil,
    Boolean(bool),
    /// A whole number, as the engine writes it.
    Integer(String),
    /// A number, as the engine writes it.
    Number(String),
    Text(String),
    /// A function, as the engine writes it.
    Function(String),
    /// The entries of a table, in the order in which the engine walks them.
    Table(Vec<(ShownKey, Shown)>),
    /// Any other value, as the engine writes it.
    Other(String),
}

/// `n` spaces.
pub open spec fn padding(n: nat) -> Seq<char> {
    Seq::new(n, |i: int| ' ')
}

/// Whether a text key can be written bare.
pub open spec fn is_plain_key(key: Seq<char>) -> bool {
    compiles(IDENTIFIER_PATTERN@) && matched(IDENTIFIER_PATTERN@, key)
}

/// A flag in words.
pub open spec fn flag_text(flag: bool) -> Seq<char> {
    if flag {
        "true"@
    } else {
        "false"@
    }
}

/// A key in the coloured form: a plain text key bare, any other text key
/// quoted in brackets, a number in brackets.
pub open spec fn pretty_key(key: ShownKey) -> Seq<char> {
    match key {
        ShownKey::Text(s) => if is_plain_key(s@) {
            s@
        } else {
            "["@ + GREEN@ + "\""@ + s@ + "\""@ + RESET@ + "]"@
        },
        ShownKey::Integer(n) => CYAN@ + "["@ + RESET@ + BLUE@ + n@ + RESET@ + CYAN@ + "]"@ + RESET@,
        ShownKey::Number(n) => CYAN@ + "["@ + RESET@ + BLUE@ + n@ + RESET@ + CYAN@ + "]"@ + RESET@,
        ShownKey::Function => RED@ + "<function>"@ + RESET@,
        ShownKey::Other(t) => t@,
    }
}

/// What follows a value that stands inside a table, in the coloured form.
pub open spec fn pretty_comma(depth: nat) -> Seq<char> {
    if depth > 0 {
        CYAN@ + ","@ + RESET@
    } else {
        Seq::empty()
    }
}

/// A value that is no table, in the coloured form: text is quoted inside a
/// table and bare at the top.
pub open spec fn pretty_leaf(value: Shown, depth: nat) -> Seq<char> {
    match value {
        Shown::Table(_) => Seq::empty(),
        Shown::Text(s) => if depth == 0 {
            s@
        } else {
            GREEN@ + "\""@ + s@ + "\""@ + RESET@
        },
        Shown::Integer(n) => CYAN@ + n@ + RESET@,
        Shown::Number(n) => BLUE@ + n@ + RESET@,
        Shown::Function(f) => RED@ + "<"@ + f@ + ">"@ + RESET@,
        Shown::Boolean(b) => GREEN@ + flag_text(b) + RESET@,
        Shown::Nil => RED@ + "nil"@ + RESET@,
        Shown::Other(t) => t@,
    }
}

/// What stands before the value of an entry in the coloured form: the
/// indentation, the key and the sign between key and value.
pub open spec fn pretty_head(key: ShownKey, depth: nat) -> Seq<char> {
    "    "@ + padding(4 * depth) + pretty_key(key) + " "@ + CYAN@ + "="@ + RESET@ + " "@
}

/// A value in the coloured form at depth `depth`. A table is written with
/// one entry a line, each four spaces deeper than the table, however deep
/// the tables lie in each other.
pub open spec fn pretty_text(value: Shown, depth: nat) -> Seq<char>
    decreases value, 0nat,
{
    (match value {
        Shown::Table(entries) => "{\n"@ + pretty_entries(entries, entries@.len(), depth) + padding(
            4 * depth,
        ) + "}"@,
        _ => pretty_leaf(value, depth),
    }) + pretty_comma(depth)
}

/// The first `upto` entries of a table at depth `depth` in the coloured
/// form, one a line.
pub open spec fn pretty_entries(entries: Vec<(ShownKey, Shown)>, upto: nat, depth: nat) -> Seq<
    char,
>
    decreases entries, upto,
{
    if upto == 0 || upto > entries@.len() {
        Seq::empty()
    } else {
        pretty_entries(entries, (upto - 1) as nat, depth) + pretty_head(
            entries@[upto - 1].0,
            depth,
        ) + pretty_text(entries@[upto - 1].1, depth + 1) + "\n"@
    }
}

/// A key in the plain form.
pub open spec fn raw_key(key: ShownKey) -> Seq<char> {
    match key {
        ShownKey::Text(s) => "String("@ + quoted(s@) + ")"@,
        ShownKey::Integer(n) => "Integer("@ + n@ + ")"@,
        ShownKey::Number(n) => "Number("@ + n@ + ")"@,
        ShownKey::Function => "Function"@,
        ShownKey::Other(t) => t@,
    }
}

/// What follows a value that stands inside a table, in the plain form.
pub open spec fn raw_comma(depth: nat) -> Seq<char> {
    if depth > 0 {
        ","@
    } else {
        Seq::empty()
    }
}

/// A value that is no table, in the plain form.
pub open spec fn raw_leaf(value: Shown) -> Seq<char> {
    match value {
        Shown::Table(_) => Seq::empty(),
        Shown::Text(s) => "String("@ + quoted(s@) + ")"@,
        Shown::Integer(n) => "Integer("@ + n@ + ")"@,
        Shown::Number(n) => "Number("@ + n@ + ")"@,
        Shown::Function(f) => f@,
        Shown::Boolean(b) => "Boolean("@ + flag_text(b) + ")"@,
        Shown::Nil => "Nil"@,
        Shown::Other(t) => t@,
    }
}

/// What stands before the value of an entry in the plain form.
pub open spec fn raw_head(key: ShownKey, depth: nat) -> Seq<char> {
    "  "@ + padding(2 * depth) + raw_key(key) + " = "@
}

/// A value in the plain form at depth `depth`. A table is written with one
/// entry a line, each two spaces deeper than the table; a table that lies
/// too deep is left out.
pub open spec fn raw_text(value: Shown, depth: nat) -> Seq<char>
    decreases MAX_DEPTH - depth, 1nat, 0nat,
{
    (match value {
        Shown::Table(entries) => if depth < MAX_DEPTH {
            "{\n"@ + raw_entries(entries@, entries@.len(), depth) + padding(2 * depth) + "}"@
        } else {
            Seq::empty()
        },
        _ => raw_leaf(value),
    }) + raw_comma(depth)
}

/// The first `upto` entries of a table at depth `depth` in the plain form,
/// one a line.
pub open spec fn raw_entries(entries: Seq<(ShownKey, Shown)>, upto: nat, depth: nat) -> Seq<char>
    decreases MAX_DEPTH - depth, 0nat, upto,
{
    if upto == 0 || upto > entries.len() || depth >= MAX_DEPTH {
        Seq::empty()
    } else {
        raw_entries(entries, (upto - 1) as nat, depth) + raw_head(entries[upto - 1].0, depth)
            + raw_text(entries[upto - 1].1, depth + 1) + "\n"@
    }
}

/// The first `upto` values of a list, each written by `pretty_text` at the
/// top, with `, ` between them.
pub open spec fn pretty_list(values: Seq<Shown>, upto: nat) -> Seq<char>
    decreases upto,
{
    if upto == 0 || upto > values.len() {
        Seq::empty()
    } else if upto == 1 {
        pretty_text(values[0], 0)
    } else {
        pretty_list(values, (upto - 1) as nat) + ", "@ + pretty_text(values[upto - 1], 0)
    }
}

/// The first `upto` values of a list, each written by `raw_text` at the top,
/// with `, ` between them.
pub open spec fn raw_list(values: Seq<Shown>, upto: nat) -> Seq<char>
    decreases upto,
{
    if upto == 0 || upto > values.len() {
        Seq::empty()
    } else if upto == 1 {
        raw_text(values[0], 0)
    } else {
        raw_list(values, (upto - 1) as nat) + ", "@ + raw_text(values[upto - 1], 0)
    }
}

/// Whether `style` is what compiling the identifier pattern gives.
pub open spec fn is_key_style(style: Option<regex::Regex>) -> bool {
    match style {
        Some(re) => compiles(IDENTIFIER_PATTERN@) && pattern_of(re) == IDENTIFIER_PATTERN@,
        None => !compiles(IDENTIFIER_PATTERN@),
    }
}

/// Appends `n` spaces.
fn pad(out: &mut String, n: usize)
    ensures
        final(out)@ == old(out)@ + padding(n as nat),
{
    let mut i: usize = 0;
    assert(out@ =~= old(out)@ + padding(0));
    while i < n
        invariant
            i <= n,
            out@ == old(out)@ + padding(i as nat),
        decreases n - i,
    {
        out.push(' ');
        i += 1;
        assert(out@ =~= old(out)@ + padding(i as nat));
    }
}

/// Appends a key in the coloured form.
fn write_pretty_key(key: &ShownKey, out: &mut String, style: &Option<regex::Regex>)
    requires
        is_key_style(*style),
    ensures
        final(out)@ == old(out)@ + pretty_key(*key),
{
    match key {
        ShownKey::Text(s) => {
            let plain = match style {
                Some(re) => has_match(re, s.as_str()),
                None => false,
            };
            if plain {
                out.append(s.as_str());
            } else {
                out.append("[");
                out.append(GREEN);
                out.append("\"");
                out.append(s.as_str());
                out.append("\"");
                out.append(RESET);
                out.append("]");
                assert(out@ =~= old(out)@ + pretty_key(*key));
            }
        },
        ShownKey::Integer(n) => {
            out.append(CYAN);
            out.append("[");
            out.append(RESET);
            out.append(BLUE);
            out.append(n.as_str());
            out.append(RESET);
            out.append(CYAN);
            out.append("]");
            out.append(RESET);
            assert(out@ =~= old(out)@ + pretty_key(*key));
        },
        ShownKey::Number(n) => {
            out.append(CYAN);
            out.append("[");
            out.append(RESET);
            out.append(BLUE);
            out.append(n.as_str());
            out.append(RESET);
            out.append(CYAN);
            out.append("]");
            out.append(RESET);
            assert(out@ =~= old(out)@ + pretty_key(*key));
        },
        ShownKey::Function => {
            out.append(RED);
            out.append("<function>");
            out.append(RESET);
            assert(out@ =~= old(out)@ + pretty_key(*key));
        },
        ShownKey::Other(t) => {
            out.append(t.as_str());
        },
    }
}

/// Appends what stands before the value of an entry in the coloured form.
fn write_pretty_head(
    key: &ShownKey,
    out: &mut String,
    indent: &str,
    Ghost(depth): Ghost<nat>,
    style: &Option<regex::Regex>,
)
    requires
        indent@ == padding(4 * depth),
        is_key_style(*style),
    ensures
        final(out)@ == old(out)@ + pretty_head(*key, depth),
{
    out.append("    ");
    out.append(indent);
    write_pretty_key(key, out, style);
    out.append(" ");
    out.append(CYAN);
    out.append("=");
    out.append(RESET);
    out.append(" ");
    assert(out@ =~= old(out)@ + pretty_head(*key, depth));
}

/// Appends a value that is no table in the coloured form.
fn write_pretty_leaf(value: &Shown, out: &mut String, top: bool, Ghost(depth): Ghost<nat>)
    requires
        top == (depth == 0),
    ensures
        final(out)@ == old(out)@ + pretty_leaf(*value, depth),
{
    match value {
        Shown::Table(_) => {
            assert(out@ =~= old(out)@ + Seq::<char>::empty());
        },
        Shown::Text(s) => {
            if top {
                out.append(s.as_str());
            } else {
                out.append(GREEN);
                out.append("\"");
                out.append(s.as_str());
                out.append("\"");
                out.append(RESET);
                assert(out@ =~= old(out)@ + (GREEN@ + "\""@ + s@ + "\""@ + RESET@));
            }
        },
        Shown::Integer(n) => {
            out.append(CYAN);
            out.append(n.as_str());
            out.append(RESET);
            assert(out@ =~= old(out)@ + (CYAN@ + n@ + RESET@));
        },
        Shown::Number(n) => {
            out.append(BLUE);
            out.append(n.as_str());
            out.append(RESET);
            assert(out@ =~= old(out)@ + (BLUE@ + n@ + RESET@));
        },
        Shown::Function(f) => {
            out.append(RED);
            out.append("<");
            out.append(f.as_str());
            out.append(">");
            out.append(RESET);
            assert(out@ =~= old(out)@ + (RED@ + "<"@ + f@ + ">"@ + RESET@));
        },
        Shown::Boolean(b) => {
            out.append(GREEN);
            if *b {
                out.append("true");
            } else {
                out.append("false");
            }
            out.append(RESET);
            assert(out@ =~= old(out)@ + (GREEN@ + flag_text(*b) + RESET@));
        },
        Shown::Nil => {
            out.append(RED);
            out.append("nil");
            out.append(RESET);
            assert(out@ =~= old(out)@ + (RED@ + "nil"@ + RESET@));
        },
        Shown::Other(t) => {
            out.append(t.as_str());
        },
    }
}

/// Appends what follows a value in the coloured form.
fn write_pretty_comma(out: &mut String, top: bool, Ghost(depth): Ghost<nat>)
    requires
        top == (depth == 0),
    ensures
        final(out)@ == old(out)@ + pretty_comma(depth),
{
    if !top {
        out.append(CYAN);
        out.append(",");
        out.append(RESET);
        assert(out@ =~= old(out)@ + (CYAN@ + ","@ + RESET@));
    } else {
        assert(out@ =~= old(out)@ + Seq::<char>::empty());
    }
}

/// Four spaces more make the indentation of the next depth.
proof fn lemma_indent_deeper(depth: nat)
    ensures
        padding(4 * depth) + "    "@ == padding(4 * (depth + 1)),
{
    reveal_strlit("    ");
    assert(padding(4 * depth) + "    "@ =~= padding(4 * (depth + 1)));
}

/// Appends a value in the coloured form. `indent` is the indentation of
/// the depth at which the value stands.
fn process_pretty_values(
    value: &Shown,
    out: &mut String,
    indent: &str,
    top: bool,
    Ghost(depth): Ghost<nat>,
    style: &Option<regex::Regex>,
)
    requires
        indent@ == padding(4 * depth),
        top == (depth == 0),
        is_key_style(*style),
    ensures
        final(out)@ == old(out)@ + pretty_text(*value, depth),
    decreases *value,
{
    let ghost start = out@;
    match value {
        Shown::Table(entries) => {
            out.append("{\n");
            let ghost head = out@;
            let mut deeper = String::from_str(indent);
            deeper.append("    ");
            proof {
                lemma_indent_deeper(depth);
            }
            let mut i: usize = 0;
            assert(out@ =~= head + pretty_entries(*entries, 0, depth));
            while i < entries.len()
                invariant
                    i <= entries.len(),
                    indent@ == padding(4 * depth),
                    deeper@ == padding(4 * (depth + 1)),
                    is_key_style(*style),
                    *value == Shown::Table(*entries),
                    out@ == head + pretty_entries(*entries, i as nat, depth),
                decreases entries.len() - i,
            {
                let ghost before = out@;
                write_pretty_head(&entries[i].0, out, indent, Ghost(depth), style);
                proof {
                    vstd::std_specs::vec::axiom_vec_index_decreases(*entries, i as int);
                    assert(*entries == value->Table_0);
                    assert(decreases_to!(*value => value->Table_0));
                    assert(decreases_to!(*entries => entries[i as int]));
                    assert(decreases_to!(entries[i as int] => entries[i as int].1));
                }
                process_pretty_values(
                    &entries[i].1,
                    out,
                    deeper.as_str(),
                    false,
                    Ghost(depth + 1),
                    style,
                );
                out.append("\n");
                i += 1;
                assert(out@ =~= before + (pretty_head(entries@[i - 1].0, depth) + pretty_text(
                    entries@[i - 1].1,
                    depth + 1,
                ) + "\n"@));
                assert(out@ =~= head + pretty_entries(*entries, i as nat, depth));
            }
            out.append(indent);
            out.append("}");
            assert(out@ =~= start + ("{\n"@ + pretty_entries(*entries, entries@.len(), depth)
                + padding(4 * depth) + "}"@));
        },
        _ => {
            write_pretty_leaf(value, out, top, Ghost(depth));
        },
    }
    write_pretty_comma(out, top, Ghost(depth));
    assert(out@ =~= start + pretty_text(*value, depth));
}

/// Appends a key in the plain form.
fn write_raw_key(key: &ShownKey, out: &mut String)
    ensures
        final(out)@ == old(out)@ + raw_key(*key),
{
    match key {
        ShownKey::Text(s) => {
            out.append("String(");
            let q = quote(s.as_str());
            out.append(q.as_str());
            out.append(")");
            assert(out@ =~= old(out)@ + raw_key(*key));
        },
        ShownKey::Integer(n) => {
            out.append("Integer(");
            out.append(n.as_str());
            out.append(")");
            assert(out@ =~= old(out)@ + raw_key(*key));
        },
        ShownKey::Number(n) => {
            out.append("Number(");
            out.append(n.as_str());
            out.append(")");
            assert(out@ =~= old(out)@ + raw_key(*key));
        },
        ShownKey::Function => {
            out.append("Function");
        },
        ShownKey::Other(t) => {
            out.append(t.as_str());
        },
    }
}

/// Appends what stands before the value of an entry in the plain form.
fn write_raw_head(key: &ShownKey, out: &mut String, depth: usize)
    requires
        depth <= MAX_DEPTH,
    ensures
        final(out)@ == old(out)@ + raw_head(*key, depth as nat),
{
    out.append("  ");
    pad(out, 2 * depth);
    write_raw_key(key, out);
    out.append(" = ");
    assert(out@ =~= old(out)@ + raw_head(*key, depth as nat));
}

/// Appends a value that is no table in the plain form.
fn write_raw_leaf(value: &Shown, out: &mut String)
    ensures
        final(out)@ == old(out)@ + raw_leaf(*value),
{
    match value {
        Shown::Table(_) => {
            assert(out@ =~= old(out)@ + Seq::<char>::empty());
        },
        Shown::Text(s) => {
            out.append("String(");
            let q = quote(s.as_str());
            out.append(q.as_str());
            out.append(")");
            assert(out@ =~= old(out)@ + ("String("@ + quoted(s@) + ")"@));
        },
        Shown::Integer(n) => {
            out.append("Integer(");
            out.append(n.as_str());
            out.append(")");
            assert(out@ =~= old(out)@ + ("Integer("@ + n@ + ")"@));
        },
        Shown::Number(n) => {
            out.append("Number(");
            out.append(n.as_str());
            out.append(")");
            assert(out@ =~= old(out)@ + ("Number("@ + n@ + ")"@));
        },
        Shown::Function(f) => {
            out.append(f.as_str());
        },
        Shown::Boolean(b) => {
            out.append("Boolean(");
            if *b {
                out.append("true");
            } else {
                out.append("false");
            }
            out.append(")");
            assert(out@ =~= old(out)@ + ("Boolean("@ + flag_text(*b) + ")"@));
        },
        Shown::Nil => {
            out.append("Nil");
        },
        Shown::Other(t) => {
            out.append(t.as_str());
        },
    }
}

/// Appends a value in the plain form.
fn process_raw_values(value: &Shown, out: &mut String, depth: usize)
    requires
        depth <= MAX_DEPTH,
    ensures
        final(out)@ == old(out)@ + raw_text(*value, depth as nat),
    decreases MAX_DEPTH - depth,
{
    let ghost start = out@;
    match value {
        Shown::Table(entries) => {
            if depth < MAX_DEPTH {
                out.append("{\n");
                let ghost head = out@;
                let mut i: usize = 0;
                assert(out@ =~= head + raw_entries(entries@, 0, depth as nat));
                while i < entries.len()
                    invariant
                        i <= entries.len(),
                        depth < MAX_DEPTH,
                        out@ == head + raw_entries(entries@, i as nat, depth as nat),
                    decreases entries.len() - i,
                {
                    let ghost before = out@;
                    write_raw_head(&entries[i].0, out, depth);
                    process_raw_values(&entries[i].1, out, depth + 1);
                    out.append("\n");
                    i += 1;
                    assert(out@ =~= before + (raw_head(entries@[i - 1].0, depth as nat) + raw_text(
                        entries@[i - 1].1,
                        (depth + 1) as nat,
                    ) + "\n"@));
                    assert(out@ =~= head + raw_entries(entries@, i as nat, depth as nat));
                }
                pad(out, 2 * depth);
                out.append("}");
                assert(out@ =~= start + ("{\n"@ + raw_entries(
                    entries@,
                    entries@.len(),
                    depth as nat,
                ) + padding(2 * depth as nat) + "}"@));
            } else {
                assert(out@ =~= start + Seq::<char>::empty());
            }
        },
        _ => {
            write_raw_leaf(value, out);
        },
    }
    let ghost body = out@;
    if depth > 0 {
        out.append(",");
    }
    assert(out@ =~= body + raw_comma(depth as nat));
    assert(out@ =~= start + raw_text(*value, depth as nat));
}

/// A value in the coloured form.
pub fn prettify_output(value: &Shown) -> (out: String)
    ensures
        out@ == pretty_text(*value, 0),
{
    let style = compile(IDENTIFIER_PATTERN);
    let mut out = String::new();
    let indent = String::new();
    assert(indent@ =~= padding(0));
    process_pretty_values(value, &mut out, indent.as_str(), true, Ghost(0), &style);
    assert(out@ =~= pretty_text(*value, 0));
    out
}

/// The values in the coloured form, with `, ` between them: the line that
/// `print` writes.
pub fn pretty_print(values: &Vec<Shown>) -> (out: String)
    ensures
        out@ == pretty_list(values@, values@.len()),
{
    let style = compile(IDENTIFIER_PATTERN);
    let mut out = String::new();
    let indent = String::new();
    assert(indent@ =~= padding(0));
    let mut i: usize = 0;
    assert(out@ =~= pretty_list(values@, 0));
    while i < values.len()
        invariant
            i <= values.len(),
            is_key_style(style),
            indent@ == padding(0),
            out@ == pretty_list(values@, i as nat),
        decreases values.len() - i,
    {
        if i > 0 {
            out.append(", ");
        }
        process_pretty_values(&values[i], &mut out, indent.as_str(), true, Ghost(0), &style);
        i += 1;
        assert(out@ =~= pretty_list(values@, i as nat));
    }
    out
}

/// The values in the plain form, with `, ` between them: the line that the
/// debug print writes. Tables that lie ten tables deep or deeper are left
/// out.
pub fn debug_print(values: &Vec<Shown>) -> (out: String)
    ensures
        out@ == raw_list(values@, values@.len()),
{
    let mut out = String::new();
    let mut i: usize = 0;
    assert(out@ =~= raw_list(values@, 0));
    while i < values.len()
        invariant
            i <= values.len(),
            out@ == raw_list(values@, i as nat),
        decreases values.len() - i,
    {
        if i > 0 {
            out.append(", ");
        }
        process_raw_values(&values[i], &mut out, 0);
        i += 1;
        assert(out@ =~= raw_list(values@, i as nat));
    }
    out
}

/// A warning as it is written: the value in the coloured form, in bold
/// yellow.
pub fn warn(value: &Shown) -> (out: String)
    ensures
        out@ == BOLD_YELLOW@ + pretty_text(*value, 0) + RESET@,
{
    let text = prettify_output(value);
    let mut out = String::from_str(BOLD_YELLOW);
    out.append(text.as_str());
    out.append(RESET);
    out
}

/// The command that clears the terminal: `cls` on Windows, `clear` on every
/// other system.
pub fn output_clear(windows: bool) -> (out: &'static str)
    ensures
        out@ == (if windows {
            "cls"@
        } else {
            "clear"@
        }),
{
    if windows {
        "cls"
    } else {
        "clear"
    }
}

/// Whether a value of the kind `kind` can be written to a stream: text and
/// buffers can.
pub fn output_write(kind: ValueKind) -> (out: Result<(), ValueKind>)
    ensures
        out == (if kind == ValueKind::Text || kind == ValueKind::Buffer {
            Ok::<(), ValueKind>(())
        } else {
            Err::<(), ValueKind>(kind)
        }),
{
    match kind {
        ValueKind::Text => Ok(()),
        ValueKind::Buffer => Ok(()),
        _ => Err(kind),
    }
}

} // verus!
