//! Reading the arguments of the debug console's built-in commands.
//!
//! Each command checks its arguments before it touches the world; what it
//! reads is returned as a request, what it rejects as the error message the
//! console shows. Number values that are not integers are read by the caller.

use vstd::prelude::*;

verus! {

/// Whether `c` is an ASCII decimal digit.
pub open spec fn is_digit(c: char) -> bool {
    '0' <= c && c <= '9'
}

/// The value of a sequence of decimal digits.
pub open spec fn digits_value(s: Seq<char>) -> nat
    decreases s.len(),
{
    if s.len() == 0 {
        0
    } else {
        digits_value(s.drop_last()) * 10 + ((s.last() as nat) - ('0' as nat)) as nat
    }
}

/// The digits of an unsigned number's text: the text without a leading `+`.
pub open spec fn unsigned_digits(s: Seq<char>) -> Seq<char> {
    if s.len() > 0 && s[0] == '+' {
        s.drop_first()
    } else {
        s
    }
}

/// Whether every character of `d` is a decimal digit.
pub open spec fn all_digits(d: Seq<char>) -> bool {
    forall|i: int| 0 <= i < d.len() ==> is_digit(#[trigger] d[i])
}

/// The value of an unsigned decimal number as Rust's integer `FromStr`
/// reads it: an optional `+`, then one or more ASCII digits and nothing else.
pub open spec fn unsigned_text_value(s: Seq<char>) -> Option<nat> {
    let d = unsigned_digits(s);
    if d.len() > 0 && all_digits(d) {
        Some(digits_value(d))
    } else {
        None
    }
}

/// The value of a text as a number at most `max`, if it is one.
pub open spec fn bounded_value(s: Seq<char>, max: nat) -> Option<nat> {
    match unsigned_text_value(s) {
        Some(v) => if v <= max {
            Some(v)
        } else {
            None
        },
        None => None,
    }
}

/// Reads a decimal number at most `max`.
fn parse_bounded(s: &str, max: u64) -> (r: Option<u64>)
    ensures
        match bounded_value(s@, max as nat) {
            Some(v) => r == Some(v as u64),
            None => r is None,
        },
{
    let n = s.unicode_len();
    let mut start: usize = 0;
    if n > 0 && s.get_char(0) == '+' {
        start = 1;
    }
    let ghost d = unsigned_digits(s@);
    assert(d == s@.skip(start as int));
    if start >= n {
        return None;
    }
    let mut value: u64 = 0;
    let mut overflow = false;
    let mut i: usize = start;
    while i < n
        invariant
            n == s@.len(),
            start <= i <= n,
            start < n,
            d == s@.skip(start as int),
            d == unsigned_digits(s@),
            forall|k: int| start <= k < i ==> is_digit(s@[k]),
            !overflow ==> value as nat == digits_value(s@.subrange(start as int, i as int)),
            !overflow ==> value <= max,
            overflow ==> digits_value(s@.subrange(start as int, i as int)) > max,
        decreases n - i,
    {
        let c = s.get_char(i);
        if !('0' <= c && c <= '9') {
            assert(d[i - start] == s@[i as int]);
            assert(!is_digit(d[i - start]));
            assert(!all_digits(d));
            return None;
        }
        let digit: u64 = (c as u32 - '0' as u32) as u64;
        let ghost prev = s@.subrange(start as int, i as int);
        let ghost next = s@.subrange(start as int, i + 1);
        assert(next.drop_last() == prev);
        assert(next.last() == c);
        assert(digits_value(next) == digits_value(prev) * 10 + digit);
        if !overflow {
            if digit > max || value > (max - digit) / 10 {
                overflow = true;
                assert(digits_value(prev) * 10 + digit > max) by (nonlinear_arith)
                    requires
                        digits_value(prev) == value,
                        digit > max || value > (max - digit) / 10,
                ;
            } else {
                assert(value * 10 + digit <= max) by (nonlinear_arith)
                    requires
                        value <= (max - digit) / 10,
                        digit <= max,
                ;
                value = value * 10 + digit;
            }
        } else {
            assert(digits_value(prev) * 10 + digit > max) by (nonlinear_arith)
                requires
                    digits_value(prev) > max,
            ;
        }
        i = i + 1;
    }
    assert(s@.subrange(start as int, n as int) == d);
    assert forall|k: int| 0 <= k < d.len() implies is_digit(#[trigger] d[k]) by {
        assert(d[k] == s@[k + start]);
    }
    if overflow {
        None
    } else {
        Some(value)
    }
}

/// Reads a `u32` as `str::parse::<u32>` does.
pub fn parse_u32(s: &str) -> (r: Option<u32>)
    ensures
        match bounded_value(s@, u32::MAX as nat) {
            Some(v) => r == Some(v as u32),
            None => r is None,
        },
{
    match parse_bounded(s, u32::MAX as u64) {
        Some(v) => Some(v as u32),
        None => None,
    }
}

/// Reads a `usize` as `str::parse::<usize>` does.
pub fn parse_usize(s: &str) -> (r: Option<usize>)
    ensures
        match bounded_value(s@, usize::MAX as nat) {
            Some(v) => r == Some(v as usize),
            None => r is None,
        },
{
    match parse_bounded(s, usize::MAX as u64) {
        Some(v) => Some(v as usize),
        None => None,
    }
}

/// Reads `true` or `false` as `str::parse::<bool>` does.
pub fn parse_bool(s: &str) -> (r: Option<bool>)
    ensures
        r == (if s@ == "true"@ {
            Some(true)
        } else if s@ == "false"@ {
            Some(false)
        } else {
            None
        }),
{
    let owned = String::from_str(s);
    if equals(&owned, "true") {
        Some(true)
    } else if equals(&owned, "false") {
        Some(false)
    } else {
        None
    }
}

/// Whether `s` is the text `word`.
fn equals(s: &String, word: &str) -> (r: bool)
    ensures
        r == (s@ == word@),
{
    let w = String::from_str(word);
    s.eq(&w)
}

/// `prefix`, then `middle`, then `suffix`.
fn framed(prefix: &str, middle: &str, suffix: &str) -> (r: String)
    ensures
        r@ == prefix@ + middle@ + suffix@,
{
    let mut r = String::from_str(prefix);
    r.append(middle);
    r.append(suffix);
    r
}

/// What the `spawn` command creates.
#[derive(Debug, Clone, Copy, PartialEq, Eq, Structural)]
pub enum SpawnKind {
    Creature,
    Food,
    Water,
}

/// A checked `spawn` command: what to create and how many.
#[derive(Debug, Clone, Copy, PartialEq, Eq, Structural)]
pub struct SpawnRequest {
    pub kind: SpawnKind,
    pub count: usize,
}

/// Which entities the `kill` command removes.
#[derive(Debug, Clone, Copy, PartialEq, Eq, Structural)]
pub enum KillTarget {
    All,
    Creatures,
    Resources,
    Entity(u32),
}

/// The runtime values `set` and `get` act on.
#[derive(Debug, Clone, Copy, PartialEq, Eq, Structural)]
pub enum Setting {
    Timescale,
    CreatureSpeed,
    DebugMode,
}

/// A checked `set` command. Number values are passed on as typed.
#[derive(Debug, Clone, PartialEq, Eq)]
pub enum SetRequest {
    Timescale(String),
    CreatureSpeed(String),
    DebugMode(bool),
}

/// What the `time` command does. A speed is passed on as typed.
#[derive(Debug, Clone, PartialEq, Eq)]
pub enum TimeRequest {
    Show,
    Pause,
    Resume,
    Speed(String),
}

/// The answer of `spawn` to its arguments.
pub open spec fn spawn_spec(args: Seq<Seq<char>>) -> Result<(SpawnKind, nat), Seq<char>> {
    if args.len() < 2 {
        Err("Usage: spawn <type> <count> [x] [y]"@)
    } else if bounded_value(args[1], usize::MAX as nat) is None {
        Err("Invalid count"@)
    } else if args[0] == "creature"@ {
        Ok((SpawnKind::Creature, bounded_value(args[1], usize::MAX as nat).unwrap()))
    } else if args[0] == "food"@ {
        Ok((SpawnKind::Food, bounded_value(args[1], usize::MAX as nat).unwrap()))
    } else if args[0] == "water"@ {
        Ok((SpawnKind::Water, bounded_value(args[1], usize::MAX as nat).unwrap()))
    } else {
        Err("Unknown entity type: '"@ + args[0] + "'"@)
    }
}

/// The text of each argument.
pub open spec fn texts(args: Seq<String>) -> Seq<Seq<char>> {
    args.map_values(|a: String| a@)
}

/// Checks the arguments of `spawn <creature|food|water> <count> [x] [y]`
/// (the coordinates are read by the caller).
pub fn interpret_spawn(args: &Vec<String>) -> (r: Result<SpawnRequest, String>)
    ensures
        match (r, spawn_spec(texts(args@))) {
            (Ok(req), Ok((kind, count))) => req.kind == kind && req.count == count,
            (Err(e), Err(msg)) => e@ == msg,
            _ => false,
        },
{
    proof {
        assert(texts(args@).len() == args@.len());
    }
    if args.len() < 2 {
        return Err(String::from_str("Usage: spawn <type> <count> [x] [y]"));
    }
    assert(texts(args@)[0] == args@[0]@ && texts(args@)[1] == args@[1]@);
    let count = match parse_usize(args[1].as_str()) {
        Some(c) => c,
        None => {
            return Err(String::from_str("Invalid count"));
        },
    };
    let kind = if equals(&args[0], "creature") {
        SpawnKind::Creature
    } else if equals(&args[0], "food") {
        SpawnKind::Food
    } else if equals(&args[0], "water") {
        SpawnKind::Water
    } else {
        return Err(framed("Unknown entity type: '", args[0].as_str(), "'"));
    };
    Ok(SpawnRequest { kind, count })
}

/// The answer of `kill` to its arguments.
pub open spec fn kill_spec(args: Seq<Seq<char>>) -> Result<KillTarget, Seq<char>> {
    if args.len() == 0 {
        Err("Usage: kill <all|creatures|resources|entity_id>"@)
    } else if args[0] == "all"@ {
        Ok(KillTarget::All)
    } else if args[0] == "creatures"@ {
        Ok(KillTarget::Creatures)
    } else if args[0] == "resources"@ {
        Ok(KillTarget::Resources)
    } else if bounded_value(args[0], u32::MAX as nat) is Some {
        Ok(KillTarget::Entity(bounded_value(args[0], u32::MAX as nat).unwrap() as u32))
    } else {
        Err("Invalid entity ID: '"@ + args[0] + "'"@)
    }
}

/// Checks the arguments of `kill <all|creatures|resources|entity_id>`.
pub fn interpret_kill(args: &Vec<String>) -> (r: Result<KillTarget, String>)
    ensures
        match (r, kill_spec(texts(args@))) {
            (Ok(t), Ok(u)) => t == u,
            (Err(e), Err(msg)) => e@ == msg,
            _ => false,
        },
{
    proof {
        assert(texts(args@).len() == args@.len());
    }
    if args.len() == 0 {
        return Err(String::from_str("Usage: kill <all|creatures|resources|entity_id>"));
    }
    assert(texts(args@)[0] == args@[0]@);
    if equals(&args[0], "all") {
        Ok(KillTarget::All)
    } else if equals(&args[0], "creatures") {
        Ok(KillTarget::Creatures)
    } else if equals(&args[0], "resources") {
        Ok(KillTarget::Resources)
    } else {
        match parse_u32(args[0].as_str()) {
            Some(index) => Ok(KillTarget::Entity(index)),
            None => Err(framed("Invalid entity ID: '", args[0].as_str(), "'")),
        }
    }
}

/// The answer of `set` to its arguments.
pub open spec fn set_spec(args: Seq<Seq<char>>) -> Result<Setting, Seq<char>> {
    if args.len() < 2 {
        Err("Usage: set <variable> <value>"@)
    } else if args[0] == "timescale"@ {
        Ok(Setting::Timescale)
    } else if args[0] == "creature_speed"@ {
        Ok(Setting::CreatureSpeed)
    } else if args[0] == "debug_mode"@ {
        if args[1] == "true"@ || args[1] == "false"@ {
            Ok(Setting::DebugMode)
        } else {
            Err("Invalid boolean value (use true/false)"@)
        }
    } else {
        Err("Unknown variable: '"@ + args[0] + "'. Available: timescale, creature_speed, debug_mode"@)
    }
}

/// `set debug_mode v` is accepted exactly when `v` is `true` or `false`, as
/// `bool`'s parser accepts, and then sets debug mode; `set timescale v` and
/// `set creature_speed v` are always accepted here (their number is read by
/// the caller); with fewer than two arguments `set` is refused.
pub proof fn lemma_set_debug_mode(args: Seq<Seq<char>>)
    ensures
        args.len() < 2 ==> set_spec(args) is Err,
        args.len() >= 2 && args[0] == "timescale"@ ==> set_spec(args) == Ok::<Setting, Seq<char>>(
            Setting::Timescale,
        ),
        args.len() >= 2 && args[0] == "creature_speed"@ ==> set_spec(args) == Ok::<
            Setting,
            Seq<char>,
        >(Setting::CreatureSpeed),
        args.len() >= 2 && args[0] == "debug_mode"@ ==> {
            &&& (set_spec(args) is Ok <==> (args[1] == "true"@ || args[1] == "false"@))
            &&& set_spec(args) is Ok ==> set_spec(args) == Ok::<Setting, Seq<char>>(
                Setting::DebugMode,
            )
        },
        args.len() >= 2 && args[0] != "timescale"@ && args[0] != "creature_speed"@ && args[0]
            != "debug_mode"@ ==> set_spec(args) is Err,
{
    reveal_strlit("timescale");
    reveal_strlit("creature_speed");
    reveal_strlit("debug_mode");
    assert("timescale"@.len() == 9);
    assert("creature_speed"@.len() == 14);
    assert("debug_mode"@.len() == 10);
}

/// Checks the arguments of `set <variable> <value>`.
pub fn interpret_set(args: &Vec<String>) -> (r: Result<SetRequest, String>)
    ensures
        match (r, set_spec(texts(args@))) {
            (Ok(SetRequest::Timescale(v)), Ok(Setting::Timescale)) => v@ == args@[1]@,
            (Ok(SetRequest::CreatureSpeed(v)), Ok(Setting::CreatureSpeed)) => v@ == args@[1]@,
            (Ok(SetRequest::DebugMode(b)), Ok(Setting::DebugMode)) => b == (args@[1]@ == "true"@),
            (Err(e), Err(msg)) => e@ == msg,
            _ => false,
        },
        args@.len() >= 2 && args@[0]@ == "debug_mode"@ ==> {
            &&& args@[1]@ == "true"@ ==> r == Ok::<SetRequest, String>(SetRequest::DebugMode(true))
            &&& args@[1]@ == "false"@ ==> r == Ok::<SetRequest, String>(
                SetRequest::DebugMode(false),
            )
            &&& (args@[1]@ != "true"@ && args@[1]@ != "false"@) ==> r is Err
        },
{
    proof {
        lemma_set_debug_mode(texts(args@));
        reveal_strlit("true");
        reveal_strlit("false");
        assert("true"@.len() == 4);
        assert("false"@.len() == 5);
        if args@.len() >= 2 {
            assert(texts(args@)[0] == args@[0]@);
            assert(texts(args@)[1] == args@[1]@);
        }
    }
    proof {
        assert(texts(args@).len() == args@.len());
    }
    if args.len() < 2 {
        return Err(String::from_str("Usage: set <variable> <value>"));
    }
    assert(texts(args@)[0] == args@[0]@ && texts(args@)[1] == args@[1]@);
    if equals(&args[0], "timescale") {
        Ok(SetRequest::Timescale(args[1].clone()))
    } else if equals(&args[0], "creature_speed") {
        Ok(SetRequest::CreatureSpeed(args[1].clone()))
    } else if equals(&args[0], "debug_mode") {
        match parse_bool(args[1].as_str()) {
            Some(b) => Ok(SetRequest::DebugMode(b)),
            None => Err(String::from_str("Invalid boolean value (use true/false)")),
        }
    } else {
        Err(
            framed(
                "Unknown variable: '",
                args[0].as_str(),
                "'. Available: timescale, creature_speed, debug_mode",
            ),
        )
    }
}

/// The answer of `get` to its arguments.
pub open spec fn get_spec(args: Seq<Seq<char>>) -> Result<Setting, Seq<char>> {
    if args.len() == 0 {
        Err("Usage: get <variable>"@)
    } else if args[0] == "timescale"@ {
        Ok(Setting::Timescale)
    } else if args[0] == "creature_speed"@ {
        Ok(Setting::CreatureSpeed)
    } else if args[0] == "debug_mode"@ {
        Ok(Setting::DebugMode)
    } else {
        Err("Unknown variable: '"@ + args[0] + "'"@)
    }
}

/// Checks the arguments of `get <variable>`.
pub fn interpret_get(args: &Vec<String>) -> (r: Result<Setting, String>)
    ensures
        match (r, get_spec(texts(args@))) {
            (Ok(s), Ok(t)) => s == t,
            (Err(e), Err(msg)) => e@ == msg,
            _ => false,
        },
{
    proof {
        assert(texts(args@).len() == args@.len());
    }
    if args.len() == 0 {
        return Err(String::from_str("Usage: get <variable>"));
    }
    assert(texts(args@)[0] == args@[0]@);
    if equals(&args[0], "timescale") {
        Ok(Setting::Timescale)
    } else if equals(&args[0], "creature_speed") {
        Ok(Setting::CreatureSpeed)
    } else if equals(&args[0], "debug_mode") {
        Ok(Setting::DebugMode)
    } else {
        Err(framed("Unknown variable: '", args[0].as_str(), "'"))
    }
}

/// Reads the arguments of `time [pause|resume|<speed>]`.
pub fn interpret_time(args: &Vec<String>) -> (r: TimeRequest)
    ensures
        args@.len() == 0 ==> r == TimeRequest::Show,
        args@.len() > 0 ==> match r {
            TimeRequest::Pause => args@[0]@ == "pause"@,
            TimeRequest::Resume => args@[0]@ == "resume"@,
            TimeRequest::Speed(v) => v@ == args@[0]@ && args@[0]@ != "pause"@ && args@[0]@
                != "resume"@,
            TimeRequest::Show => false,
        },
{
    if args.len() == 0 {
        TimeRequest::Show
    } else if equals(&args[0], "pause") {
        TimeRequest::Pause
    } else if equals(&args[0], "resume") {
        TimeRequest::Resume
    } else {
        TimeRequest::Speed(args[0].clone())
    }
}

/// The listing shown by `help` without arguments, for the given command
/// names (in the order given).
pub open spec fn help_listing_spec(names: Seq<Seq<char>>) -> Seq<char>
    decreases names.len(),
{
    if names.len() == 0 {
        "Available commands:\n"@
    } else {
        help_listing_spec(names.drop_last()) + "  "@ + names.last() + "\n"@
    }
}

/// Builds the answer of `help` without arguments from the command names, in
/// the order given.
pub fn help_listing(names: &Vec<String>) -> (r: String)
    ensures
        r@ == help_listing_spec(texts(names@)) + "\nType 'help <command>' for more information."@,
{
    let mut out = String::from_str("Available commands:\n");
    let mut i: usize = 0;
    while i < names.len()
        invariant
            i <= names@.len(),
            out@ == help_listing_spec(texts(names@).take(i as int)),
        decreases names@.len() - i,
    {
        out.append("  ");
        out.append(names[i].as_str());
        out.append("\n");
        proof {
            let t = texts(names@).take(i + 1);
            assert(t.drop_last() == texts(names@).take(i as int));
            assert(t.last() == names@[i as int]@);
        }
        i = i + 1;
    }
    assert(texts(names@).take(names@.len() as int) == texts(names@));
    out.append("\nType 'help <command>' for more information.");
    out
}

/// The answer of `help <command>` for a known command.
pub fn command_help(help: &str, usage: &str) -> (r: String)
    ensures
        r@ == help@ + "\nUsage: "@ + usage@,
{
    let mut r = String::from_str(help);
    r.append("\nUsage: ");
    r.append(usage);
    r
}

/// The answer of `help <command>` for an unknown command.
pub fn unknown_help(name: &str) -> (r: String)
    ensures
        r@ == "Unknown command: '"@ + name@ + "'"@,
{
    framed("Unknown command: '", name, "'")
}

/// `spawn` needs a type and a count; a count that is not a number refuses
/// the command whatever the type; with a valid count, `creature`, `food` and
/// `water` spawn that many of their kind and any other type is refused.
pub proof fn lemma_spawn_arguments(args: Seq<Seq<char>>)
    ensures
        args.len() < 2 ==> spawn_spec(args) is Err,
        args.len() >= 2 && bounded_value(args[1], usize::MAX as nat) is None ==> spawn_spec(args)
            == Err::<(SpawnKind, nat), Seq<char>>("Invalid count"@),
        args.len() >= 2 && bounded_value(args[1], usize::MAX as nat) is Some ==> {
            let n = bounded_value(args[1], usize::MAX as nat).unwrap();
            &&& args[0] == "creature"@ ==> spawn_spec(args) == Ok::<(SpawnKind, nat), Seq<char>>(
                (SpawnKind::Creature, n),
            )
            &&& args[0] == "food"@ ==> spawn_spec(args) == Ok::<(SpawnKind, nat), Seq<char>>(
                (SpawnKind::Food, n),
            )
            &&& args[0] == "water"@ ==> spawn_spec(args) == Ok::<(SpawnKind, nat), Seq<char>>(
                (SpawnKind::Water, n),
            )
            &&& (args[0] != "creature"@ && args[0] != "food"@ && args[0] != "water"@)
                ==> spawn_spec(args) is Err
        },
{
    reveal_strlit("creature");
    reveal_strlit("food");
    reveal_strlit("water");
    assert("creature"@.len() == 8);
    assert("food"@.len() == 4);
    assert("water"@.len() == 5);
}

/// `kill` needs a target; `all`, `creatures` and `resources` name groups,
/// any other text that reads as a `u32` names that entity, and anything else
/// is refused.
pub proof fn lemma_kill_arguments(args: Seq<Seq<char>>)
    ensures
        args.len() == 0 ==> kill_spec(args) is Err,
        args.len() > 0 && args[0] == "all"@ ==> kill_spec(args) == Ok::<KillTarget, Seq<char>>(
            KillTarget::All,
        ),
        args.len() > 0 && args[0] == "creatures"@ ==> kill_spec(args) == Ok::<
            KillTarget,
            Seq<char>,
        >(KillTarget::Creatures),
        args.len() > 0 && args[0] == "resources"@ ==> kill_spec(args) == Ok::<
            KillTarget,
            Seq<char>,
        >(KillTarget::Resources),
        args.len() > 0 && args[0] != "all"@ && args[0] != "creatures"@ && args[0] != "resources"@
            ==> (match bounded_value(args[0], u32::MAX as nat) {
            Some(v) => kill_spec(args) == Ok::<KillTarget, Seq<char>>(KillTarget::Entity(v as u32)),
            None => kill_spec(args) is Err,
        }),
{
    reveal_strlit("all");
    reveal_strlit("creatures");
    reveal_strlit("resources");
    assert("all"@.len() == 3);
    assert("creatures"@[0] == 'c');
    assert("resources"@[0] == 'r');
}

/// `get` reads exactly the three settings `timescale`, `creature_speed` and
/// `debug_mode`; any other name, or none, is refused.
pub proof fn lemma_get_arguments(args: Seq<Seq<char>>)
    ensures
        args.len() == 0 ==> get_spec(args) is Err,
        args.len() > 0 && args[0] == "timescale"@ ==> get_spec(args) == Ok::<Setting, Seq<char>>(
            Setting::Timescale,
        ),
        args.len() > 0 && args[0] == "creature_speed"@ ==> get_spec(args) == Ok::<
            Setting,
            Seq<char>,
        >(Setting::CreatureSpeed),
        args.len() > 0 && args[0] == "debug_mode"@ ==> get_spec(args) == Ok::<Setting, Seq<char>>(
            Setting::DebugMode,
        ),
        args.len() > 0 && args[0] != "timescale"@ && args[0] != "creature_speed"@ && args[0]
            != "debug_mode"@ ==> get_spec(args) is Err,
{
    reveal_strlit("timescale");
    reveal_strlit("creature_speed");
    reveal_strlit("debug_mode");
    assert("timescale"@.len() == 9);
    assert("creature_speed"@.len() == 14);
    assert("debug_mode"@.len() == 10);
}

/// A number's text reads the same with or without a leading `+`, and a text
/// of digits followed by one more digit `d` reads ten times as much plus `d`.
pub proof fn lemma_number_text(digits: Seq<char>, d: char)
    requires
        digits.len() > 0,
        all_digits(digits),
        is_digit(d),
    ensures
        unsigned_text_value(seq!['+'] + digits) == unsigned_text_value(digits),
        unsigned_text_value(digits.push(d)) == Some(
            unsigned_text_value(digits).unwrap() * 10 + ((d as nat) - ('0' as nat)) as nat,
        ),
        unsigned_text_value(Seq::<char>::empty()) is None,
        unsigned_text_value(seq!['+']) is None,
{
    assert((seq!['+'] + digits).drop_first() =~= digits);
    assert(digits.push(d).drop_last() =~= digits);
    assert(seq!['+'].drop_first() =~= Seq::<char>::empty());
    if digits[0] == '+' {
        assert(!is_digit(digits[0]));
    }
    assert(all_digits(digits.push(d))) by {
        assert forall|i: int| 0 <= i < digits.push(d).len() implies is_digit(
            #[trigger] digits.push(d)[i],
        ) by {
            if i < digits.len() {
                assert(digits.push(d)[i] == digits[i]);
            }
        }
    }
    if digits.push(d)[0] == '+' {
        assert(digits.push(d)[0] == digits[0]);
    }
}

} // verus!
