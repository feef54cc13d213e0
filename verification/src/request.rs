//! What the client hands to the transport: one command line, and the kind
//! of response line that the simulator answers it with.

use crate::stat::StatQuery;
use crate::text::decimal;
use crate::text::push_decimal;
use vstd::prelude::*;
use vstd::string::*;

verus! {

/// The arguments of a command as they stand on the line: each one after
/// a single space.
pub open spec fn arguments(args: Seq<Seq<char>>) -> Seq<char>
    decreases args.len(),
{
    if args.len() == 0 {
        Seq::<char>::empty()
    } else {
        arguments(args.drop_last()) + seq![' '] + args.last()
    }
}

/// The line of a command: its keyword, its arguments and one newline.
pub open spec fn command_line(keyword: Seq<char>, args: Seq<Seq<char>>) -> Seq<char> {
    keyword + arguments(args) + seq!['\n']
}

/// What the simulator sends back for a command.
#[derive(Clone, Copy, Debug, PartialEq, Eq, Structural)]
pub enum ReplyKind {
    /// No line at all: the command is sent and forgotten.
    Nothing,
    /// The acknowledgment.
    Ack,
    /// One line that holds `true` or anything else.
    Flag,
    /// One line that holds an integer.
    Integer,
    /// One line that holds the value of the statistic asked for.
    Stat(StatQuery),
}

/// One command, ready for the transport: the line to write and flush, and
/// the kind of response to read before the next command is sent.
#[derive(Debug)]
pub struct Request {
    /// The command line, with the newline that ends it.
    pub line: String,
    /// What to read back.
    pub reply: ReplyKind,
}

impl Request {
    /// Whether the simulator answers this command with a line. Where it
    /// does not, the transport reads nothing.
    pub fn awaits_reply(&self) -> (b: bool)
        ensures
            b == (self.reply != ReplyKind::Nothing),
    {
        match self.reply {
            ReplyKind::Nothing => false,
            _ => true,
        }
    }
}

/// A number of cells to advance by: at least one.
#[derive(Clone, Copy, Debug)]
pub struct Distance {
    cells: u32,
}

impl View for Distance {
    type V = nat;

    closed spec fn view(&self) -> nat {
        self.cells as nat
    }
}

impl Distance {
    #[verifier::type_invariant]
    spec fn positive(self) -> bool {
        self.cells > 0
    }

    /// A distance of `cells` cells. Zero cells are no distance.
    pub fn new(cells: u32) -> (r: Option<Distance>)
        ensures
            r is Some <==> cells != 0,
            r matches Some(d) ==> d@ == cells,
    {
        if cells == 0 {
            None
        } else {
            Some(Distance { cells })
        }
    }

    /// The number of cells, which is not zero.
    pub fn get(&self) -> (cells: u32)
        ensures
            cells == self@,
            cells > 0,
    {
        proof {
            use_type_invariant(self);
        }
        self.cells
    }
}

/// Appends a space and the decimal numeral of `n`.
pub(crate) fn push_number(line: &mut String, n: u32)
    ensures
        final(line)@ == old(line)@ + seq![' '] + decimal(n as nat),
{
    line.push(' ');
    push_decimal(line, n);
    assert(old(line)@.push(' ') =~= old(line)@ + seq![' ']);
}

/// Appends a space and the letter `c`.
pub(crate) fn push_letter(line: &mut String, c: char)
    ensures
        final(line)@ == old(line)@ + seq![' '] + seq![c],
{
    line.push(' ');
    line.push(c);
    assert(old(line)@.push(' ').push(c) =~= old(line)@ + seq![' '] + seq![c]);
}

/// Appends a space and `text`.
pub(crate) fn push_text(line: &mut String, text: &str)
    ensures
        final(line)@ == old(line)@ + seq![' '] + text@,
{
    line.push(' ');
    line.append(text);
    assert(old(line)@.push(' ') + text@ =~= old(line)@ + seq![' '] + text@);
}

/// Ends the line and makes the request of it.
pub(crate) fn finish(line: String, reply: ReplyKind) -> (req: Request)
    ensures
        req.line@ == line@ + seq!['\n'],
        req.reply == reply,
{
    let ghost before = line@;
    let mut line = line;
    line.push('\n');
    assert(line@ =~= before + seq!['\n']);
    Request { line, reply }
}

/// A command without arguments is its keyword and the newline.
pub proof fn lemma_line_bare(keyword: Seq<char>)
    ensures
        command_line(keyword, Seq::empty()) == keyword + seq!['\n'],
{
    assert(keyword + Seq::<char>::empty() =~= keyword);
}

/// The line of a command with one argument.
pub proof fn lemma_line_unary(keyword: Seq<char>, a: Seq<char>)
    ensures
        command_line(keyword, seq![a]) == keyword + seq![' '] + a + seq!['\n'],
{
    reveal_with_fuel(arguments, 2);
    assert(seq![a].drop_last() =~= Seq::<Seq<char>>::empty());
    assert(keyword + arguments(seq![a]) =~= keyword + seq![' '] + a);
}

/// The line of a command with two arguments.
pub proof fn lemma_line_binary(keyword: Seq<char>, a: Seq<char>, b: Seq<char>)
    ensures
        command_line(keyword, seq![a, b]) == keyword + seq![' '] + a + seq![' '] + b + seq!['\n'],
{
    reveal_with_fuel(arguments, 3);
    assert(seq![a, b].drop_last() =~= seq![a]);
    assert(seq![a].drop_last() =~= Seq::<Seq<char>>::empty());
    assert(keyword + arguments(seq![a, b]) =~= keyword + seq![' '] + a + seq![' '] + b);
}

/// The line of a command with three arguments.
pub proof fn lemma_line_ternary(keyword: Seq<char>, a: Seq<char>, b: Seq<char>, c: Seq<char>)
    ensures
        command_line(keyword, seq![a, b, c]) == keyword + seq![' '] + a + seq![' '] + b + seq![
            ' ',
        ] + c + seq!['\n'],
{
    reveal_with_fuel(arguments, 4);
    assert(seq![a, b, c].drop_last() =~= seq![a, b]);
    assert(seq![a, b].drop_last() =~= seq![a]);
    assert(seq![a].drop_last() =~= Seq::<Seq<char>>::empty());
    assert(keyword + arguments(seq![a, b, c]) =~= keyword + seq![' '] + a + seq![' '] + b + seq![
        ' ',
    ] + c);
}

} // verus!
