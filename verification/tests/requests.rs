use mms_rs::CellColor;
use mms_rs::Direction;
use mms_rs::Distance;
use mms_rs::MmsApi;
use mms_rs::ReplyKind;
use mms_rs::Request;
use mms_rs::StatQuery;

fn check(request: Request, line: &str, reply: ReplyKind) {
    assert_eq!(request.line, line);
    assert_eq!(request.reply, reply);
    assert_eq!(request.awaits_reply(), reply != ReplyKind::Nothing);
}

#[test]
fn move_forward_without_distance_has_an_empty_argument() {
    check(MmsApi::move_forward(None), "moveForward \n", ReplyKind::Ack);
}

#[test]
fn move_forward_by_three() {
    let distance = Distance::new(3);
    assert!(distance.is_some());
    check(MmsApi::move_forward(distance), "moveForward 3\n", ReplyKind::Ack);
}

#[test]
fn move_forward_by_the_largest_distance() {
    check(
        MmsApi::move_forward(Distance::new(u32::MAX)),
        "moveForward 4294967295\n",
        ReplyKind::Ack,
    );
}

#[test]
fn a_distance_of_zero_cannot_be_made() {
    assert!(Distance::new(0).is_none());
}

#[test]
fn a_distance_keeps_its_number_of_cells() {
    for cells in [1u32, 2, 9, 10, 1000, u32::MAX] {
        assert_eq!(Distance::new(cells).unwrap().get(), cells);
    }
}

#[test]
fn questions_are_bare_keywords() {
    check(MmsApi::maze_width(), "mazeWidth\n", ReplyKind::Integer);
    check(MmsApi::maze_height(), "mazeHeight\n", ReplyKind::Integer);
    check(MmsApi::wall_front(), "wallFront\n", ReplyKind::Flag);
    check(MmsApi::wall_right(), "wallRight\n", ReplyKind::Flag);
    check(MmsApi::wall_left(), "wallLeft\n", ReplyKind::Flag);
    check(MmsApi::was_reset(), "wasReset\n", ReplyKind::Flag);
}

#[test]
fn moves_wait_for_the_acknowledgment() {
    check(MmsApi::turn_right(), "turnRight\n", ReplyKind::Ack);
    check(MmsApi::turn_left(), "turnLeft\n", ReplyKind::Ack);
    check(MmsApi::ack_reset(), "ackReset\n", ReplyKind::Ack);
}

#[test]
fn walls_are_set_and_cleared_by_cell_and_side() {
    check(
        MmsApi::set_wall(0, 0, &Direction::North),
        "setWall 0 0 n\n",
        ReplyKind::Nothing,
    );
    check(
        MmsApi::set_wall(3, 15, &Direction::East),
        "setWall 3 15 e\n",
        ReplyKind::Nothing,
    );
    check(
        MmsApi::clear_wall(12, 7, &Direction::South),
        "clearWall 12 7 s\n",
        ReplyKind::Nothing,
    );
    check(
        MmsApi::clear_wall(4294967295, 100, &Direction::West),
        "clearWall 4294967295 100 w\n",
        ReplyKind::Nothing,
    );
}

#[test]
fn colors_are_set_and_cleared() {
    check(
        MmsApi::set_color(0, 0, &CellColor::Green),
        "setColor 0 0 g\n",
        ReplyKind::Nothing,
    );
    check(
        MmsApi::set_color(1, 2, &CellColor::DarkGreen),
        "setColor 1 2 G\n",
        ReplyKind::Nothing,
    );
    check(MmsApi::clear_color(10, 20), "clearColor 10 20\n", ReplyKind::Nothing);
    check(MmsApi::clear_all_color(), "clearAllColor\n", ReplyKind::Nothing);
}

#[test]
fn text_is_set_and_cleared() {
    check(
        MmsApi::set_text(0, 0, "abc"),
        "setText 0 0 abc\n",
        ReplyKind::Nothing,
    );
    check(MmsApi::set_text(5, 6, ""), "setText 5 6 \n", ReplyKind::Nothing);
    check(MmsApi::clear_text(7, 8), "clearText 7 8\n", ReplyKind::Nothing);
    check(MmsApi::clear_all_text(), "clearAllText\n", ReplyKind::Nothing);
}

#[test]
fn text_goes_on_the_line_as_it_is() {
    check(
        MmsApi::set_text(1, 1, "a b  c"),
        "setText 1 1 a b  c\n",
        ReplyKind::Nothing,
    );
    check(
        MmsApi::set_text(1, 1, "two\nlines"),
        "setText 1 1 two\nlines\n",
        ReplyKind::Nothing,
    );
    check(
        MmsApi::set_text(1, 1, "größe"),
        "setText 1 1 größe\n",
        ReplyKind::Nothing,
    );
}

#[test]
fn a_statistic_is_asked_for_by_its_token_alone() {
    check(
        MmsApi::get_stat(&StatQuery::Score),
        "score\n",
        ReplyKind::Stat(StatQuery::Score),
    );
    check(
        MmsApi::get_stat(&StatQuery::TotalTurns),
        "total-turns\n",
        ReplyKind::Stat(StatQuery::TotalTurns),
    );
    check(
        MmsApi::get_stat(&StatQuery::CurrentRunEffectiveDistance),
        "current-run-effective-distance\n",
        ReplyKind::Stat(StatQuery::CurrentRunEffectiveDistance),
    );
}

#[test]
fn every_line_ends_in_exactly_one_newline() {
    let requests = vec![
        MmsApi::maze_width(),
        MmsApi::move_forward(None),
        MmsApi::move_forward(Distance::new(12)),
        MmsApi::set_wall(1, 2, &Direction::North),
        MmsApi::set_color(1, 2, &CellColor::Red),
        MmsApi::set_text(1, 2, "abc"),
        MmsApi::clear_all_text(),
        MmsApi::get_stat(&StatQuery::BestRunDistance),
    ];
    for request in requests {
        assert!(request.line.ends_with('\n'));
        assert_eq!(request.line.matches('\n').count(), 1);
    }
}

#[test]
fn coordinates_are_written_in_decimal() {
    for (x, text) in [
        (0u32, "0"),
        (9, "9"),
        (10, "10"),
        (99, "99"),
        (100, "100"),
        (1234567890, "1234567890"),
        (u32::MAX, "4294967295"),
    ] {
        let request = MmsApi::clear_color(x, x);
        assert_eq!(request.line, format!("clearColor {} {}\n", text, text));
    }
}
