//! The large block digits of the timer display.

use vstd::prelude::*;

verus! {

/// The seven rows of the large glyph that draws `c`: digits and the colon
/// have a shape, any other character is blank.
pub open spec fn glyph(c: char) -> Seq<Seq<char>> {
    if c == '0' {
        seq![" ##### "@, "#     #"@, "#     #"@, "#     #"@, "#     #"@, "#     #"@, " ##### "@]
    } else if c == '1' {
        seq!["   #   "@, "  ##   "@, " # #   "@, "   #   "@, "   #   "@, "   #   "@, " ##### "@]
    } else if c == '2' {
        seq![" ##### "@, "#     #"@, "      #"@, "  #### "@, " #     "@, "#      "@, "#######"@]
    } else if c == '3' {
        seq![" ##### "@, "#     #"@, "      #"@, "  #### "@, "      #"@, "#     #"@, " ##### "@]
    } else if c == '4' {
        seq!["#    # "@, "#    # "@, "#    # "@, "#######"@, "     # "@, "     # "@, "     # "@]
    } else if c == '5' {
        seq!["#######"@, "#      "@, "#      "@, "###### "@, "      #"@, "#     #"@, " ##### "@]
    } else if c == '6' {
        seq![" ##### "@, "#     #"@, "#      "@, "###### "@, "#     #"@, "#     #"@, " ##### "@]
    } else if c == '7' {
        seq!["#######"@, "     # "@, "    #  "@, "   #   "@, "  #    "@, " #     "@, "#      "@]
    } else if c == '8' {
        seq![" ##### "@, "#     #"@, "#     #"@, " ##### "@, "#     #"@, "#     #"@, " ##### "@]
    } else if c == '9' {
        seq![" ##### "@, "#     #"@, "#     #"@, " ######"@, "      #"@, "#     #"@, " ##### "@]
    } else if c == ':' {
        seq!["       "@, "   #   "@, "       "@, "       "@, "   #   "@, "       "@, "       "@]
    } else {
        seq!["       "@, "       "@, "       "@, "       "@, "       "@, "       "@, "       "@]
    }
}

/// The seven rows of the large glyph that draws `ch`.
pub fn big_glyph(ch: char) -> (rows: [&'static str; 7])
    ensures
        rows@.map_values(|s: &'static str| s@) == glyph(ch),
{
    let rows: [&'static str; 7] = if ch == '0' {
        [" ##### ", "#     #", "#     #", "#     #", "#     #", "#     #", " ##### "]
    } else if ch == '1' {
        ["   #   ", "  ##   ", " # #   ", "   #   ", "   #   ", "   #   ", " ##### "]
    } else if ch == '2' {
        [" ##### ", "#     #", "      #", "  #### ", " #     ", "#      ", "#######"]
    } else if ch == '3' {
        [" ##### ", "#     #", "      #", "  #### ", "      #", "#     #", " ##### "]
    } else if ch == '4' {
        ["#    # ", "#    # ", "#    # ", "#######", "     # ", "     # ", "     # "]
    } else if ch == '5' {
        ["#######", "#      ", "#      ", "###### ", "      #", "#     #", " ##### "]
    } else if ch == '6' {
        [" ##### ", "#     #", "#      ", "###### ", "#     #", "#     #", " ##### "]
    } else if ch == '7' {
        ["#######", "     # ", "    #  ", "   #   ", "  #    ", " #     ", "#      "]
    } else if ch == '8' {
        [" ##### ", "#     #", "#     #", " ##### ", "#     #", "#     #", " ##### "]
    } else if ch == '9' {
        [" ##### ", "#     #", "#     #", " ######", "      #", "#     #", " ##### "]
    } else if ch == ':' {
        ["       ", "   #   ", "       ", "       ", "   #   ", "       ", "       "]
    } else {
        ["       ", "       ", "       ", "       ", "       ", "       ", "       "]
    };
    assert(rows@.map_values(|s: &'static str| s@) =~= glyph(ch));
    rows
}

/// Every glyph has seven rows of seven cells, each a space or a `#`.
pub proof fn lemma_glyph_shape(c: char)
    ensures
        glyph(c).len() == 7,
        forall|r: int| 0 <= r < 7 ==> (#[trigger] glyph(c)[r]).len() == 7,
        forall|r: int, k: int| 0 <= r < 7 && 0 <= k < 7 ==> glyph(c)[r][k] == ' ' || glyph(c)[r][k] == '#',
{
    reveal_strlit("       ");
    reveal_strlit("      #");
    reveal_strlit("     # ");
    reveal_strlit("    #  ");
    reveal_strlit("   #   ");
    reveal_strlit("  #    ");
    reveal_strlit("  ##   ");
    reveal_strlit("  #### ");
    reveal_strlit(" #     ");
    reveal_strlit(" # #   ");
    reveal_strlit(" ##### ");
    reveal_strlit(" ######");
    reveal_strlit("#      ");
    reveal_strlit("#     #");
    reveal_strlit("#    # ");
    reveal_strlit("###### ");
    reveal_strlit("#######");
}

/// A row drawn twice as wide: each space becomes two spaces and every other
/// character two `#`.
pub open spec fn thick(row: Seq<char>) -> Seq<char>
    decreases row.len(),
{
    if row.len() == 0 {
        seq![]
    } else {
        thick(row.drop_last()) + (if row.last() == ' ' { seq![' ', ' '] } else { seq!['#', '#'] })
    }
}

/// Each row repeated `scale` times in place, in order.
pub open spec fn repeat_rows(rows: Seq<Seq<char>>, scale: nat) -> Seq<Seq<char>>
    decreases rows.len(),
{
    if rows.len() == 0 {
        seq![]
    } else {
        repeat_rows(rows.drop_last(), scale) + Seq::new(scale, |j: int| rows.last())
    }
}

/// Row `r` of the large rendering of `text`: the thickened row `r` of each
/// character's glyph, two spaces between neighbours.
pub open spec fn timer_row(text: Seq<char>, r: int) -> Seq<char>
    decreases text.len(),
{
    if text.len() == 0 {
        seq![]
    } else if text.len() == 1 {
        thick(glyph(text[0])[r])
    } else {
        timer_row(text.drop_last(), r) + seq![' ', ' '] + thick(glyph(text.last())[r])
    }
}

/// The seven rows of the large rendering of `text`, before they are doubled
/// in height.
pub open spec fn timer_rows(text: Seq<char>) -> Seq<Seq<char>> {
    Seq::new(7, |r: int| timer_row(text, r))
}

/// The views of a sequence of strings.
pub open spec fn views(rows: Seq<String>) -> Seq<Seq<char>> {
    rows.map_values(|s: String| s@)
}

/// `row` drawn twice as wide.
pub fn thicken_row(row: &str) -> (thick_row: String)
    ensures
        thick_row@ == thick(row@),
{
    broadcast use vstd::string::group_string_axioms;

    let mut out = String::new();
    assert(row@.take(0) =~= seq![]);
    for ch in it: row.chars()
        invariant
            it.seq() == row@,
            out@ == thick(row@.take(it.index())),
    {
        let ghost i = it.index();
        assert(ch == row@[i]);
        assert(row@.take(i + 1).last() == ch);
        proof {
            reveal_strlit("  ");
            reveal_strlit("##");
        }
        if ch == ' ' {
            out.append("  ");
        } else {
            out.append("##");
        }
        assert(row@.take(i + 1).drop_last() =~= row@.take(i));
    }
    assert(row@.take(row@.len() as int) =~= row@);
    out
}

/// Each row repeated `scale` times in place.
pub fn thicken_rows(rows: &[String], scale: usize) -> (expanded: Vec<String>)
    ensures
        views(expanded@) == repeat_rows(views(rows@), scale as nat),
{
    let mut expanded: Vec<String> = Vec::new();
    let ghost all = views(rows@);
    proof {
        assert(all.take(0) =~= seq![]);
        assert(views(expanded@) =~= seq![]);
    }
    for i in 0..rows.len()
        invariant
            all == views(rows@),
            all.len() == rows@.len(),
            views(expanded@) == repeat_rows(all.take(i as int), scale as nat),
    {
        let ghost before = views(expanded@);
        for j in 0..scale
            invariant
                all == views(rows@),
                0 <= i < rows@.len(),
                views(expanded@) == before + Seq::new(j as nat, |k: int| rows@[i as int]@),
        {
            let ghost prev = expanded@;
            let copy = rows[i].clone();
            assert(copy@ == rows@[i as int]@);
            expanded.push(copy);
            assert(expanded@ == prev.push(copy));
            assert(views(expanded@) =~= views(prev).push(copy@));
            assert(views(expanded@) =~= before + Seq::new((j + 1) as nat, |k: int| rows@[i as int]@));
        }
        assert(all.take(i + 1).drop_last() =~= all.take(i as int));
        assert(all.take(i + 1).last() == rows@[i as int]@);
        assert(views(expanded@) =~= repeat_rows(all.take(i + 1), scale as nat));
    }
    assert(all.take(rows@.len() as int) =~= all);
    expanded
}

/// Row `r` of the large rendering of `text`.
fn timer_line(text: &str, r: usize) -> (line: String)
    requires
        r < 7,
    ensures
        line@ == timer_row(text@, r as int),
{
    broadcast use vstd::string::group_string_axioms;

    let mut line = String::new();
    let mut started = false;
    assert(text@.take(0) =~= seq![]);
    for ch in it: text.chars()
        invariant
            it.seq() == text@,
            r < 7,
            started == (it.index() > 0),
            line@ == timer_row(text@.take(it.index()), r as int),
    {
        let ghost i = it.index();
        assert(ch == text@[i]);
        let glyph_rows = big_glyph(ch);
        proof {
            assert(glyph_rows@.map_values(|s: &'static str| s@)[r as int] == glyph_rows@[r as int]@);
            reveal_strlit("  ");
        }
        if started {
            line.append("  ");
        }
        started = true;
        let part = thicken_row(glyph_rows[r]);
        line.append(part.as_str());
        assert(text@.take(i + 1).drop_last() =~= text@.take(i));
        assert(text@.take(i + 1).last() == ch);
        assert(text@.take(i + 1)[0] == text@[0]);
    }
    assert(text@.take(text@.len() as int) =~= text@);
    line
}

/// The rows of the large timer display of `text`: seven glyph rows, each
/// drawn twice, so fourteen lines.
pub fn big_timer_lines(text: &str) -> (lines: Vec<String>)
    ensures
        views(lines@) == repeat_rows(timer_rows(text@), 2),
{
    let mut rows: Vec<String> = Vec::new();
    for r in 0..7
        invariant
            views(rows@) == timer_rows(text@).take(r as int),
    {
        let line = timer_line(text, r);
        let ghost prev = rows@;
        rows.push(line);
        assert(views(rows@) =~= views(prev).push(line@));
        assert(views(rows@) =~= timer_rows(text@).take(r + 1));
    }
    assert(timer_rows(text@).take(7) =~= timer_rows(text@));
    thicken_rows(rows.as_slice(), 2)
}

} // verus!
