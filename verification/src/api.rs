//! The protocol client: one function per operation that makes the
//! request, and one function per kind of response that interprets the
//! line that came back. The transport between the two is the caller's.

use crate::color::CellColor;
use crate::direction::Direction;
use crate::error::MmsError;
use crate::request::command_line;
use crate::request::finish;
use crate::request::lemma_line_bare;
use crate::request::lemma_line_binary;
use crate::request::lemma_line_ternary;
use crate::request::lemma_line_unary;
use crate::request::push_letter;
use crate::request::push_number;
use crate::request::push_text;
use crate::request::Distance;
use crate::request::ReplyKind;
use crate::request::Request;
use crate::stat::Stat;
use crate::stat::StatQuery;
use crate::text::decimal;
use crate::text::parse_i32;
use crate::text::std_parse_i32;
use crate::text::push_decimal;
use crate::text::str_eq;
use crate::text::trim_end;
use crate::text::std_trim_end;
use std::num::ParseFloatError;
use vstd::prelude::*;
use vstd::string::*;

verus! {

/// The client of the simulator's protocol.
pub struct MmsApi;

/// The two coordinates of a cell as arguments of a command.
pub open spec fn cell(x: u32, y: u32) -> Seq<Seq<char>> {
    seq![decimal(x as nat), decimal(y as nat)]
}

/// The argument of `moveForward`: the distance in decimal, or nothing
/// where no distance is given and the robot advances by one cell.
pub open spec fn distance_argument(distance: Option<Distance>) -> Seq<char> {
    match distance {
        Some(d) => decimal(d@),
        None => Seq::<char>::empty(),
    }
}

/// What a response to a query for a real number comes to, given what
/// the parser of real numbers made of its text.
pub open spec fn real_reading(query: StatQuery, parsed: Result<u32, ParseFloatError>) -> Result<
    Stat,
    MmsError,
> {
    match parsed {
        Ok(bits) => Ok(Stat::of_real(query, bits)),
        Err(e) => Err(MmsError::ParseFloatError(e)),
    }
}

/// Whether `r` is what the response to `query` comes to: a distance or
/// a number of turns is read as an integer; for a real number,
/// `parse_real` is given the line without its trailing whitespace.
pub open spec fn stat_reading<F: FnOnce(&str) -> Result<u32, ParseFloatError>>(
    query: StatQuery,
    response: Seq<char>,
    parse_real: F,
    r: Result<Stat, MmsError>,
) -> bool {
    if query.is_count() {
        match r {
            Ok(stat) => parse_i32(trim_end(response)) matches Some(v) && stat == Stat::of_count(
                query,
                v,
            ),
            Err(e) => parse_i32(trim_end(response)) is None && e is ParseIntError,
        }
    } else {
        exists|text: &str, parsed: Result<u32, ParseFloatError>|
            text@ == trim_end(response) && #[trigger] call_ensures(parse_real, (text,), parsed) && r
                == real_reading(query, parsed)
    }
}

/// The request of a command without arguments.
fn bare(keyword: &str, reply: ReplyKind) -> (req: Request)
    ensures
        req.line@ == command_line(keyword@, Seq::empty()),
        req.reply == reply,
{
    proof {
        lemma_line_bare(keyword@);
    }
    finish(String::from_str(keyword), reply)
}

/// The request of a command on one cell.
fn on_cell(keyword: &str, x: u32, y: u32) -> (req: Request)
    ensures
        req.line@ == command_line(keyword@, cell(x, y)),
        req.reply == ReplyKind::Nothing,
{
    let mut line = String::from_str(keyword);
    push_number(&mut line, x);
    push_number(&mut line, y);
    proof {
        lemma_line_binary(keyword@, decimal(x as nat), decimal(y as nat));
    }
    finish(line, ReplyKind::Nothing)
}

/// The request of a command on one side of one cell.
fn on_wall(keyword: &str, x: u32, y: u32, direction: &Direction) -> (req: Request)
    ensures
        req.line@ == command_line(keyword@, cell(x, y).push(seq![direction.token()])),
        req.reply == ReplyKind::Nothing,
{
    let mut line = String::from_str(keyword);
    push_number(&mut line, x);
    push_number(&mut line, y);
    push_letter(&mut line, direction.get_string());
    proof {
        lemma_line_ternary(keyword@, decimal(x as nat), decimal(y as nat), seq![direction.token()]);
        assert(cell(x, y).push(seq![direction.token()]) =~= seq![
            decimal(x as nat),
            decimal(y as nat),
            seq![direction.token()],
        ]);
    }
    finish(line, ReplyKind::Nothing)
}

impl MmsApi {
    /// Asks for the width of the maze.
    pub fn maze_width() -> (req: Request)
        ensures
            req.line@ == command_line("mazeWidth"@, Seq::empty()),
            req.reply == ReplyKind::Integer,
    {
        bare("mazeWidth", ReplyKind::Integer)
    }

    /// Asks for the height of the maze.
    pub fn maze_height() -> (req: Request)
        ensures
            req.line@ == command_line("mazeHeight"@, Seq::empty()),
            req.reply == ReplyKind::Integer,
    {
        bare("mazeHeight", ReplyKind::Integer)
    }

    /// Asks whether there is a wall in front of the robot.
    pub fn wall_front() -> (req: Request)
        ensures
            req.line@ == command_line("wallFront"@, Seq::empty()),
            req.reply == ReplyKind::Flag,
    {
        bare("wallFront", ReplyKind::Flag)
    }

    /// Asks whether there is a wall to the right of the robot.
    pub fn wall_right() -> (req: Request)
        ensures
            req.line@ == command_line("wallRight"@, Seq::empty()),
            req.reply == ReplyKind::Flag,
    {
        bare("wallRight", ReplyKind::Flag)
    }

    /// Asks whether there is a wall to the left of the robot.
    pub fn wall_left() -> (req: Request)
        ensures
            req.line@ == command_line("wallLeft"@, Seq::empty()),
            req.reply == ReplyKind::Flag,
    {
        bare("wallLeft", ReplyKind::Flag)
    }

    /// Moves the robot forward by `distance` cells, or by one cell where
    /// no distance is given. The argument is then empty: the keyword is
    /// followed by a space and the newline.
    pub fn move_forward(distance: Option<Distance>) -> (req: Request)
        ensures
            req.line@ == command_line("moveForward"@, seq![distance_argument(distance)]),
            req.reply == ReplyKind::Ack,
    {
        let mut line = String::from_str("moveForward");
        line.push(' ');
        match distance {
            Some(d) => {
                push_decimal(&mut line, d.get());
            },
            None => {},
        }
        proof {
            lemma_line_unary("moveForward"@, distance_argument(distance));
            assert(line@ =~= "moveForward"@ + seq![' '] + distance_argument(distance));
        }
        finish(line, ReplyKind::Ack)
    }

    /// Turns the robot ninety degrees to the right.
    pub fn turn_right() -> (req: Request)
        ensures
            req.line@ == command_line("turnRight"@, Seq::empty()),
            req.reply == ReplyKind::Ack,
    {
        bare("turnRight", ReplyKind::Ack)
    }

    /// Turns the robot ninety degrees to the left.
    pub fn turn_left() -> (req: Request)
        ensures
            req.line@ == command_line("turnLeft"@, Seq::empty()),
            req.reply == ReplyKind::Ack,
    {
        bare("turnLeft", ReplyKind::Ack)
    }

    /// Shows a wall on the given side of the cell at `x`, `y`.
    pub fn set_wall(x: u32, y: u32, direction: &Direction) -> (req: Request)
        ensures
            req.line@ == command_line("setWall"@, cell(x, y).push(seq![direction.token()])),
            req.reply == ReplyKind::Nothing,
    {
        on_wall("setWall", x, y, direction)
    }

    /// Removes the wall on the given side of the cell at `x`, `y`.
    pub fn clear_wall(x: u32, y: u32, direction: &Direction) -> (req: Request)
        ensures
            req.line@ == command_line("clearWall"@, cell(x, y).push(seq![direction.token()])),
            req.reply == ReplyKind::Nothing,
    {
        on_wall("clearWall", x, y, direction)
    }

    /// Paints the cell at `x`, `y`.
    pub fn set_color(x: u32, y: u32, color: &CellColor) -> (req: Request)
        ensures
            req.line@ == command_line("setColor"@, cell(x, y).push(seq![color.token()])),
            req.reply == ReplyKind::Nothing,
    {
        let mut line = String::from_str("setColor");
        push_number(&mut line, x);
        push_number(&mut line, y);
        push_letter(&mut line, color.get_char());
        proof {
            lemma_line_ternary(
                "setColor"@,
                decimal(x as nat),
                decimal(y as nat),
                seq![color.token()],
            );
            assert(cell(x, y).push(seq![color.token()]) =~= seq![
                decimal(x as nat),
                decimal(y as nat),
                seq![color.token()],
            ]);
        }
        finish(line, ReplyKind::Nothing)
    }

    /// Removes the color of the cell at `x`, `y`.
    pub fn clear_color(x: u32, y: u32) -> (req: Request)
        ensures
            req.line@ == command_line("clearColor"@, cell(x, y)),
            req.reply == ReplyKind::Nothing,
    {
        on_cell("clearColor", x, y)
    }

    /// Removes the color of every cell.
    pub fn clear_all_color() -> (req: Request)
        ensures
            req.line@ == command_line("clearAllColor"@, Seq::empty()),
            req.reply == ReplyKind::Nothing,
    {
        bare("clearAllColor", ReplyKind::Nothing)
    }

    /// Writes `text` into the cell at `x`, `y`. The text goes on the
    /// line as it is: one that holds a newline makes more than one line
    /// of the command.
    pub fn set_text(x: u32, y: u32, text: &str) -> (req: Request)
        ensures
            req.line@ == command_line("setText"@, cell(x, y).push(text@)),
            req.reply == ReplyKind::Nothing,
    {
        let mut line = String::from_str("setText");
        push_number(&mut line, x);
        push_number(&mut line, y);
        push_text(&mut line, text);
        proof {
            lemma_line_ternary("setText"@, decimal(x as nat), decimal(y as nat), text@);
            assert(cell(x, y).push(text@) =~= seq![decimal(x as nat), decimal(y as nat), text@]);
        }
        finish(line, ReplyKind::Nothing)
    }

    /// Removes the text of the cell at `x`, `y`.
    pub fn clear_text(x: u32, y: u32) -> (req: Request)
        ensures
            req.line@ == command_line("clearText"@, cell(x, y)),
            req.reply == ReplyKind::Nothing,
    {
        on_cell("clearText", x, y)
    }

    /// Removes the text of every cell.
    pub fn clear_all_text() -> (req: Request)
        ensures
            req.line@ == command_line("clearAllText"@, Seq::empty()),
            req.reply == ReplyKind::Nothing,
    {
        bare("clearAllText", ReplyKind::Nothing)
    }

    /// Asks whether the reset button was pressed.
    pub fn was_reset() -> (req: Request)
        ensures
            req.line@ == command_line("wasReset"@, Seq::empty()),
            req.reply == ReplyKind::Flag,
    {
        bare("wasReset", ReplyKind::Flag)
    }

    /// Lets the simulator move the robot back to the start of the maze.
    pub fn ack_reset() -> (req: Request)
        ensures
            req.line@ == command_line("ackReset"@, Seq::empty()),
            req.reply == ReplyKind::Ack,
    {
        bare("ackReset", ReplyKind::Ack)
    }

    /// Asks for a statistic. The command is the query's token alone.
    pub fn get_stat(query: &StatQuery) -> (req: Request)
        ensures
            req.line@ == command_line(query.token(), Seq::empty()),
            req.reply == ReplyKind::Stat(*query),
    {
        bare(query.get_string(), ReplyKind::Stat(*query))
    }

    /// Reads the response to a command that moves the robot. The line
    /// without its trailing whitespace must be `ack`; any other line is
    /// handed back in the error as it was received.
    pub fn read_ack(response: String) -> (r: Result<(), MmsError>)
        ensures
            match r {
                Ok(_) => trim_end(response@) == "ack"@,
                Err(e) => trim_end(response@) != "ack"@ && (e matches MmsError::InvalidAck(t) && t@
                    == response@),
            },
    {
        if str_eq(std_trim_end(response.as_str()), "ack") {
            Ok(())
        } else {
            Err(MmsError::InvalidAck(response))
        }
    }

    /// Reads the response to a yes-or-no question: `true` is yes, and
    /// every other line is no.
    pub fn read_flag(response: &str) -> (b: bool)
        ensures
            b == (trim_end(response@) == "true"@),
    {
        str_eq(std_trim_end(response), "true")
    }

    /// Reads the response to a question for an integer.
    pub fn read_integer(response: &str) -> (r: Result<i32, MmsError>)
        ensures
            match r {
                Ok(v) => parse_i32(trim_end(response@)) == Some(v),
                Err(e) => parse_i32(trim_end(response@)) is None && e is ParseIntError,
            },
    {
        match std_parse_i32(std_trim_end(response)) {
            Ok(v) => Ok(v),
            Err(e) => Err(MmsError::ParseIntError(e)),
        }
    }

    /// Reads the response to a query for a statistic and tags the value
    /// with the query. A distance or a number of turns is read as an
    /// integer. An effective distance or the score is a real number: its
    /// text, the line without trailing whitespace, goes to `parse_real`,
    /// which returns the bit pattern of the value or the reason why the
    /// text is no real number.
    pub fn read_stat<F>(query: &StatQuery, response: &str, parse_real: F) -> (r: Result<
        Stat,
        MmsError,
    >) where F: FnOnce(&str) -> Result<u32, ParseFloatError>
        requires
            forall|text: &str| call_requires(parse_real, (text,)),
        ensures
            stat_reading(*query, response@, parse_real, r),
    {
        let text = std_trim_end(response);
        if query.counts() {
            match std_parse_i32(text) {
                Ok(v) => Ok(Stat::from_count(query, v)),
                Err(e) => Err(MmsError::ParseIntError(e)),
            }
        } else {
            match parse_real(text) {
                Ok(bits) => Ok(Stat::from_real(query, bits)),
                Err(e) => Err(MmsError::ParseFloatError(e)),
            }
        }
    }
}

} // verus!
