//! The kernel's logger: which records it prints, in which colour, and the
//! level below which it filters records out.
use crate::console::putchar_codes;
use vstd::prelude::*;

verus! {

/// The level of a log record, from the most to the least severe.
#[derive(PartialEq, Eq, Structural, Clone, Copy, Debug)]
pub enum Level {
    Error,
    Warn,
    Info,
    Debug,
    Trace,
}

/// The most verbose level that is let through; `Off` lets nothing through.
#[derive(PartialEq, Eq, Structural, Clone, Copy, Debug)]
pub enum LevelFilter {
    Off,
    Error,
    Warn,
    Info,
    Debug,
    Trace,
}

/// Rank of a level: the less severe, the higher.
pub open spec fn level_rank(level: Level) -> nat {
    match level {
        Level::Error => 1,
        Level::Warn => 2,
        Level::Info => 3,
        Level::Debug => 4,
        Level::Trace => 5,
    }
}

/// The ANSI colour in which records of a level are printed.
pub open spec fn color_of(level: Level) -> u32 {
    match level {
        Level::Error => 31,
        Level::Warn => 93,
        Level::Info => 34,
        Level::Debug => 32,
        Level::Trace => 90,
    }
}

/// The decimal digits of the colour of `level`.
pub open spec fn color_text(level: Level) -> Seq<char> {
    match level {
        Level::Error => seq!['3', '1'],
        Level::Warn => seq!['9', '3'],
        Level::Info => seq!['3', '4'],
        Level::Debug => seq!['3', '2'],
        Level::Trace => seq!['9', '0'],
    }
}

/// The name of `level`, in capitals.
pub open spec fn level_name(level: Level) -> Seq<char> {
    match level {
        Level::Error => seq!['E', 'R', 'R', 'O', 'R'],
        Level::Warn => seq!['W', 'A', 'R', 'N'],
        Level::Info => seq!['I', 'N', 'F', 'O'],
        Level::Debug => seq!['D', 'E', 'B', 'U', 'G'],
        Level::Trace => seq!['T', 'R', 'A', 'C', 'E'],
    }
}

/// The line that prints a record of `level` with the message `message`, in
/// Supervisor mode: `ESC [ colour m [ LEVEL ] [ S ]`, a space, the message,
/// then `ESC [ 0 m` (back to the default colour) and a line feed.
pub open spec fn log_line(level: Level, message: Seq<char>) -> Seq<char> {
    seq!['\x1b', '['] + color_text(level) + seq!['m', '['] + level_name(level) + seq![
        ']',
        '[',
        'S',
        ']',
        ' ',
    ] + message + seq!['\x1b', '[', '0', 'm', '\n']
}

/// The maximum level that the `LOG` setting selects: its name in capitals,
/// and `Trace` when it is absent or names no level.
pub open spec fn level_filter_for(log: Option<&str>) -> LevelFilter {
    match log {
        Some(name) => if name@ == "ERROR"@ {
            LevelFilter::Error
        } else if name@ == "WARN"@ {
            LevelFilter::Warn
        } else if name@ == "INFO"@ {
            LevelFilter::Info
        } else if name@ == "DEBUG"@ {
            LevelFilter::Debug
        } else if name@ == "TRACE"@ {
            LevelFilter::Trace
        } else {
            LevelFilter::Trace
        },
        None => LevelFilter::Trace,
    }
}

/// The logger, which prints through the console.
#[derive(Clone, Copy, Debug)]
pub struct MyLogger;

impl MyLogger {
    /// Whether a record of `level` is printed: it is when its level is at
    /// most `Trace`, that is, always.
    pub fn enabled(&self, level: Level) -> (r: bool)
        ensures
            r == (level_rank(level) <= level_rank(Level::Trace)),
    {
        match level {
            Level::Error | Level::Warn | Level::Info | Level::Debug | Level::Trace => true,
        }
    }

    /// How a record of `level` whose formatted message is `message` is
    /// printed: `None` when it is not, else the values to hand, one after
    /// the other, to the console's `console_putchar`: those of the line
    /// [`log_line`].
    pub fn log(&self, level: Level, message: &str) -> (codes: Option<Vec<usize>>)
        ensures
            codes is Some <==> level_rank(level) <= level_rank(Level::Trace),
            codes matches Some(c) ==> c@ == putchar_codes(log_line(level, message@)),
            codes matches Some(c) ==> {
                &&& c@.len() == level_name(level).len() + message@.len() + 16
                &&& c@.subrange(
                    11int + level_name(level).len(),
                    11int + level_name(level).len() + message@.len(),
                ) == putchar_codes(message@)
            },
    {
        if self.enabled(level) {
            let line = format_line(level, message);
            let mut codes: Vec<usize> = Vec::new();
            let mut i: usize = 0;
            while i < line.len()
                invariant
                    i <= line@.len(),
                    codes@.len() == i,
                    forall|j: int| 0 <= j < i ==> codes@[j] == line@[j] as usize,
                decreases line@.len() - i,
            {
                codes.push(line[i] as usize);
                i = i + 1;
            }
            assert(codes@ =~= putchar_codes(line@));
            proof {
                lemma_log_line_holds_whole_message(level, message@);
                let n = level_name(level).len() as int;
                let m = message@.len() as int;
                assert(codes@.subrange(11 + n, 11 + n + m) =~= putchar_codes(
                    line@.subrange(11 + n, 11 + n + m),
                ));
            }
            Some(codes)
        } else {
            None
        }
    }
}

/// Appends `chars` to `line`.
fn push_chars(line: &mut Vec<char>, chars: &[char])
    ensures
        final(line)@ == old(line)@ + chars@,
{
    let mut i: usize = 0;
    while i < chars.len()
        invariant
            i <= chars@.len(),
            line@ == old(line)@ + chars@.subrange(0, i as int),
        decreases chars@.len() - i,
    {
        line.push(chars[i]);
        i = i + 1;
        assert(chars@.subrange(0, i as int) =~= chars@.subrange(0, i - 1) + seq![chars@[i - 1]]);
    }
    assert(chars@.subrange(0, chars@.len() as int) =~= chars@);
}

/// The characters of the line that prints a record of `level`.
fn format_line(level: Level, message: &str) -> (line: Vec<char>)
    ensures
        line@ == log_line(level, message@),
{
    broadcast use vstd::string::axiom_spec_iter;

    let mut line: Vec<char> = Vec::new();
    push_chars(&mut line, &['\x1b', '[']);
    match level {
        Level::Error => push_chars(&mut line, &['3', '1']),
        Level::Warn => push_chars(&mut line, &['9', '3']),
        Level::Info => push_chars(&mut line, &['3', '4']),
        Level::Debug => push_chars(&mut line, &['3', '2']),
        Level::Trace => push_chars(&mut line, &['9', '0']),
    }
    push_chars(&mut line, &['m', '[']);
    match level {
        Level::Error => push_chars(&mut line, &['E', 'R', 'R', 'O', 'R']),
        Level::Warn => push_chars(&mut line, &['W', 'A', 'R', 'N']),
        Level::Info => push_chars(&mut line, &['I', 'N', 'F', 'O']),
        Level::Debug => push_chars(&mut line, &['D', 'E', 'B', 'U', 'G']),
        Level::Trace => push_chars(&mut line, &['T', 'R', 'A', 'C', 'E']),
    }
    push_chars(&mut line, &[']', '[', 'S', ']', ' ']);
    let ghost head = line@;
    for c in it: message.chars()
        invariant
            it.seq() == message@,
            line@ == head + it.seq().subrange(0, it.index() as int),
    {
        line.push(c);
        assert(it.seq().subrange(0, it.index() + 1) =~= it.seq().subrange(0, it.index() as int) + seq![c]);
    }
    assert(message@.subrange(0, message@.len() as int) =~= message@);
    push_chars(&mut line, &['\x1b', '[', '0', 'm', '\n']);
    assert(line@ =~= log_line(level, message@));
    line
}

/// Whether `name` is exactly `expected`.
fn names(name: &str, expected: &str) -> (r: bool)
    ensures
        r == (name@ == expected@),
{
    name.to_owned() == expected.to_owned()
}

/// The maximum level of the logger, from the value of the `LOG` setting.
pub fn init(log: Option<&str>) -> (filter: LevelFilter)
    ensures
        filter == level_filter_for(log),
{
    match log {
        Some(name) => if names(name, "ERROR") {
            LevelFilter::Error
        } else if names(name, "WARN") {
            LevelFilter::Warn
        } else if names(name, "INFO") {
            LevelFilter::Info
        } else if names(name, "DEBUG") {
            LevelFilter::Debug
        } else {
            LevelFilter::Trace
        },
        None => LevelFilter::Trace,
    }
}

/// The character of the decimal digit `d`.
pub open spec fn decimal_digit(d: int) -> char {
    (d + '0' as int) as char
}

/// The colour in a log line is the colour code of its level, written in
/// two decimal digits.
pub proof fn lemma_color_text_is_decimal_code(level: Level)
    ensures
        color_text(level) == seq![
            decimal_digit(color_of(level) as int / 10),
            decimal_digit(color_of(level) as int % 10),
        ],
{
    assert(color_text(level) =~= seq![
        decimal_digit(color_of(level) as int / 10),
        decimal_digit(color_of(level) as int % 10),
    ]);
}

/// A log line holds the whole message, whatever it is: the line is the
/// prefix `ESC [ colour m [ LEVEL ] [ S ]` and a space, then every character
/// of the message in order, then `ESC [ 0 m` and a line feed.  Its length is
/// the length of the level's name, plus the message's, plus 16.
pub proof fn lemma_log_line_holds_whole_message(level: Level, message: Seq<char>)
    ensures
        log_line(level, message).len() == level_name(level).len() + message.len() + 16,
        log_line(level, message).subrange(0, 2) == seq!['\x1b', '['],
        log_line(level, message).subrange(2, 4) == color_text(level),
        log_line(level, message).subrange(4, 6) == seq!['m', '['],
        log_line(level, message).subrange(6, 6int + level_name(level).len()) == level_name(level),
        log_line(level, message).subrange(
            6int + level_name(level).len(),
            11int + level_name(level).len(),
        ) == seq![']', '[', 'S', ']', ' '],
        log_line(level, message).subrange(
            11int + level_name(level).len(),
            11int + level_name(level).len() + message.len(),
        ) == message,
        log_line(level, message).subrange(
            11int + level_name(level).len() + message.len(),
            16int + level_name(level).len() + message.len(),
        ) == seq!['\x1b', '[', '0', 'm', '\n'],
{
    let line = log_line(level, message);
    let n = level_name(level).len() as int;
    let m = message.len() as int;
    assert(color_text(level).len() == 2);
    assert(line.subrange(0, 2) =~= seq!['\x1b', '[']);
    assert(line.subrange(2, 4) =~= color_text(level));
    assert(line.subrange(4, 6) =~= seq!['m', '[']);
    assert(line.subrange(6, 6 + n) =~= level_name(level));
    assert(line.subrange(6 + n, 11 + n) =~= seq![']', '[', 'S', ']', ' ']);
    assert(line.subrange(11 + n, 11 + n + m) =~= message);
    assert(line.subrange(11 + n + m, 16 + n + m) =~= seq!['\x1b', '[', '0', 'm', '\n']);
}

/// The `LOG` setting selects a level by its exact name in capitals; any
/// other value, or none, lets every level through.
pub proof fn lemma_level_filter_by_exact_name(log: Option<&str>)
    ensures
        log matches Some(name) && name@ == "ERROR"@ ==> level_filter_for(log) == LevelFilter::Error,
        log matches Some(name) && name@ == "WARN"@ ==> level_filter_for(log) == LevelFilter::Warn,
        log matches Some(name) && name@ == "INFO"@ ==> level_filter_for(log) == LevelFilter::Info,
        log matches Some(name) && name@ == "DEBUG"@ ==> level_filter_for(log) == LevelFilter::Debug,
        level_filter_for(log) == LevelFilter::Error ==> (log matches Some(name) && name@ == "ERROR"@),
        level_filter_for(log) == LevelFilter::Warn ==> (log matches Some(name) && name@ == "WARN"@),
        level_filter_for(log) == LevelFilter::Info ==> (log matches Some(name) && name@ == "INFO"@),
        level_filter_for(log) == LevelFilter::Debug ==> (log matches Some(name) && name@ == "DEBUG"@),
        level_filter_for(log) != LevelFilter::Off,
{
    reveal_strlit("ERROR");
    reveal_strlit("WARN");
    reveal_strlit("INFO");
    reveal_strlit("DEBUG");
    reveal_strlit("TRACE");
    assert("ERROR"@.len() == 5 && "ERROR"@[0] == 'E');
    assert("WARN"@.len() == 4 && "WARN"@[0] == 'W');
    assert("INFO"@.len() == 4 && "INFO"@[0] == 'I');
    assert("DEBUG"@.len() == 5 && "DEBUG"@[0] == 'D');
    assert("TRACE"@.len() == 5 && "TRACE"@[0] == 'T');
}

/// Every level is printed, and each in a colour of its own.
pub proof fn lemma_every_level_printed_in_its_own_color(a: Level, b: Level)
    ensures
        level_rank(a) <= level_rank(Level::Trace),
        a != b ==> color_of(a) != color_of(b),
{
}

} // verus!
