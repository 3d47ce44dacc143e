use vstd::prelude::*;

verus! {

/// Number of text rows of a large glyph.
pub const GLYPH_ROWS: usize = 7;

/// Which large glyph draws a character: 0 to 9 for the digits, 10 for the
/// colon; other characters are not drawn.
pub open spec fn glyph_index(c: char) -> Option<int> {
    if '0' <= c && c <= '9' {
        Some(c as int - '0' as int)
    } else if c == ':' {
        Some(10)
    } else {
        None
    }
}

/// Row `row` of the large glyph `glyph`.
pub open spec fn glyph_line(glyph: int, row: int) -> Seq<char> {
    if glyph == 0 {
        if row == 0 {
            "  ███  "@
        } else if row == 1 {
            " █   █ "@
        } else if row == 2 {
            "█     █"@
        } else if row == 3 {
            "█     █"@
        } else if row == 4 {
            "█     █"@
        } else if row == 5 {
            " █   █ "@
        } else {
            "  ███  "@
        }
    } else if glyph == 1 {
        if row == 0 {
            "   █   "@
        } else if row == 1 {
            "  ██   "@
        } else if row == 2 {
            " █ █   "@
        } else if row == 3 {
            "   █   "@
        } else if row == 4 {
            "   █   "@
        } else if row == 5 {
            "   █   "@
        } else {
            " ████  "@
        }
    } else if glyph == 2 {
        if row == 0 {
            " ███   "@
        } else if row == 1 {
            "█   █  "@
        } else if row == 2 {
            "    █  "@
        } else if row == 3 {
            "   █   "@
        } else if row == 4 {
            "  █    "@
        } else if row == 5 {
            " █     "@
        } else {
            "█████  "@
        }
    } else if glyph == 3 {
        if row == 0 {
            " ███   "@
        } else if row == 1 {
            "█   █  "@
        } else if row == 2 {
            "    █  "@
        } else if row == 3 {
            "  ██   "@
        } else if row == 4 {
            "    █  "@
        } else if row == 5 {
            "█   █  "@
        } else {
            " ███   "@
        }
    } else if glyph == 4 {
        if row == 0 {
            "   ██  "@
        } else if row == 1 {
            "  █ █  "@
        } else if row == 2 {
            " █  █  "@
        } else if row == 3 {
            "█   █  "@
        } else if row == 4 {
            "█████  "@
        } else if row == 5 {
            "    █  "@
        } else {
            "    █  "@
        }
    } else if glyph == 5 {
        if row == 0 {
            "█████  "@
        } else if row == 1 {
            "█      "@
        } else if row == 2 {
            "████   "@
        } else if row == 3 {
            "    █  "@
        } else if row == 4 {
            "    █  "@
        } else if row == 5 {
            "█   █  "@
        } else {
            " ███   "@
        }
    } else if glyph == 6 {
        if row == 0 {
            "  ███  "@
        } else if row == 1 {
            " █     "@
        } else if row == 2 {
            "█      "@
        } else if row == 3 {
            "█ ███  "@
        } else if row == 4 {
            "█    █ "@
        } else if row == 5 {
            " █   █ "@
        } else {
            "  ███  "@
        }
    } else if glyph == 7 {
        if row == 0 {
            "█████  "@
        } else if row == 1 {
            "    █  "@
        } else if row == 2 {
            "   █   "@
        } else if row == 3 {
            "  █    "@
        } else if row == 4 {
            " █     "@
        } else if row == 5 {
            " █     "@
        } else {
            " █     "@
        }
    } else if glyph == 8 {
        if row == 0 {
            "  ███  "@
        } else if row == 1 {
            " █   █ "@
        } else if row == 2 {
            " █   █ "@
        } else if row == 3 {
            "  ███  "@
        } else if row == 4 {
            " █   █ "@
        } else if row == 5 {
            " █   █ "@
        } else {
            "  ███  "@
        }
    } else if glyph == 9 {
        if row == 0 {
            "  ███  "@
        } else if row == 1 {
            " █   █ "@
        } else if row == 2 {
            " █   █ "@
        } else if row == 3 {
            "  ████ "@
        } else if row == 4 {
            "     █ "@
        } else if row == 5 {
            "    ██ "@
        } else {
            "  ███  "@
        }
    } else if glyph == 10 {
        if row == 0 {
            "        "@
        } else if row == 1 {
            "   █    "@
        } else if row == 2 {
            "   █    "@
        } else if row == 3 {
            "        "@
        } else if row == 4 {
            "   █    "@
        } else if row == 5 {
            "   █    "@
        } else {
            "        "@
        }
    } else {
        Seq::empty()
    }
}

/// Row `row` of the large text for `input`: the row of each drawn
/// character's glyph, each followed by two spaces.
pub open spec fn ascii_row(input: Seq<char>, row: int) -> Seq<char>
    decreases input.len(),
{
    if input.len() == 0 {
        Seq::empty()
    } else {
        let before = ascii_row(input.drop_last(), row);
        match glyph_index(input.last()) {
            Some(g) => before + glyph_line(g, row) + "  "@,
            None => before,
        }
    }
}

/// The first `n` rows of the large text for `input`, joined by line breaks.
pub open spec fn ascii_rows(input: Seq<char>, n: int) -> Seq<char>
    decreases n,
{
    if n <= 1 {
        ascii_row(input, 0)
    } else {
        ascii_rows(input, n - 1) + "\n"@ + ascii_row(input, n - 1)
    }
}

fn glyph_row(glyph: usize, row: usize) -> (r: &'static str)
    requires
        glyph <= 10,
        row < GLYPH_ROWS,
    ensures
        r@ == glyph_line(glyph as int, row as int),
{
    match glyph {
        0 => match row {
            0 => "  ███  ",
            1 => " █   █ ",
            2 => "█     █",
            3 => "█     █",
            4 => "█     █",
            5 => " █   █ ",
            _ => "  ███  ",
        },
        1 => match row {
            0 => "   █   ",
            1 => "  ██   ",
            2 => " █ █   ",
            3 => "   █   ",
            4 => "   █   ",
            5 => "   █   ",
            _ => " ████  ",
        },
        2 => match row {
            0 => " ███   ",
            1 => "█   █  ",
            2 => "    █  ",
            3 => "   █   ",
            4 => "  █    ",
            5 => " █     ",
            _ => "█████  ",
        },
        3 => match row {
            0 => " ███   ",
            1 => "█   █  ",
            2 => "    █  ",
            3 => "  ██   ",
            4 => "    █  ",
            5 => "█   █  ",
            _ => " ███   ",
        },
        4 => match row {
            0 => "   ██  ",
            1 => "  █ █  ",
            2 => " █  █  ",
            3 => "█   █  ",
            4 => "█████  ",
            5 => "    █  ",
            _ => "    █  ",
        },
        5 => match row {
            0 => "█████  ",
            1 => "█      ",
            2 => "████   ",
            3 => "    █  ",
            4 => "    █  ",
            5 => "█   █  ",
            _ => " ███   ",
        },
        6 => match row {
            0 => "  ███  ",
            1 => " █     ",
            2 => "█      ",
            3 => "█ ███  ",
            4 => "█    █ ",
            5 => " █   █ ",
            _ => "  ███  ",
        },
        7 => match row {
            0 => "█████  ",
            1 => "    █  ",
            2 => "   █   ",
            3 => "  █    ",
            4 => " █     ",
            5 => " █     ",
            _ => " █     ",
        },
        8 => match row {
            0 => "  ███  ",
            1 => " █   █ ",
            2 => " █   █ ",
            3 => "  ███  ",
            4 => " █   █ ",
            5 => " █   █ ",
            _ => "  ███  ",
        },
        9 => match row {
            0 => "  ███  ",
            1 => " █   █ ",
            2 => " █   █ ",
            3 => "  ████ ",
            4 => "     █ ",
            5 => "    ██ ",
            _ => "  ███  ",
        },
        10 => match row {
            0 => "        ",
            1 => "   █    ",
            2 => "   █    ",
            3 => "        ",
            4 => "   █    ",
            5 => "   █    ",
            _ => "        ",
        },
        _ => "",
    }
}

fn glyph_of(c: char) -> (r: Option<usize>)
    ensures
        r matches Some(g) ==> glyph_index(c) == Some(g as int) && g <= 10,
        r is None ==> glyph_index(c) is None,
{
    if '0' <= c && c <= '9' {
        Some((c as u32 - '0' as u32) as usize)
    } else if c == ':' {
        Some(10)
    } else {
        None
    }
}

/// Draws a clock text such as `01:32:29` in large glyphs seven rows high;
/// characters other than digits and colons are skipped.
pub fn format_ascii_time(input: &str) -> (r: String)
    ensures
        r@ == ascii_rows(input@, GLYPH_ROWS as int),
{
    let n = input.unicode_len();
    let mut output = String::new();
    let mut row: usize = 0;
    while row < GLYPH_ROWS
        invariant
            n == input@.len(),
            row <= GLYPH_ROWS,
            row == 0 ==> output@ == Seq::<char>::empty(),
            row > 0 ==> output@ == ascii_rows(input@, row as int),
        decreases GLYPH_ROWS - row,
    {
        let mut line = String::new();
        let mut i: usize = 0;
        while i < n
            invariant
                n == input@.len(),
                i <= n,
                row < GLYPH_ROWS,
                line@ == ascii_row(input@.take(i as int), row as int),
            decreases n - i,
        {
            let c = input.get_char(i);
            proof {
                assert(input@.take(i + 1).drop_last() =~= input@.take(i as int));
                assert(input@.take(i + 1).last() == c);
            }
            match glyph_of(c) {
                Some(g) => {
                    line.append(glyph_row(g, row));
                    line.append("  ");
                },
                None => {},
            }
            i = i + 1;
        }
        proof {
            assert(input@.take(n as int) =~= input@);
        }
        if row > 0 {
            output.append("\n");
        }
        output.append(line.as_str());
        row = row + 1;
    }
    output
}

} // verus!
