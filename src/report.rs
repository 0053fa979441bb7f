use vstd::prelude::*;

use crate::config::{opt_view, QemuConfig};
use crate::exec::{debug_list, debug_list_of, join2, join3};
use crate::subst::strings_view;

verus! {

pub open spec fn digit_char(d: nat) -> char {
    if d == 0 {
        '0'
    } else if d == 1 {
        '1'
    } else if d == 2 {
        '2'
    } else if d == 3 {
        '3'
    } else if d == 4 {
        '4'
    } else if d == 5 {
        '5'
    } else if d == 6 {
        '6'
    } else if d == 7 {
        '7'
    } else if d == 8 {
        '8'
    } else {
        '9'
    }
}

/// The decimal digits of `n`, most significant first, without leading zeros.
pub open spec fn decimal_spec(n: nat) -> Seq<char>
    decreases n,
{
    if n < 10 {
        seq![digit_char(n)]
    } else {
        decimal_spec(n / 10) + seq![digit_char(n % 10)]
    }
}

fn digit_text(d: usize) -> (r: &'static str)
    requires
        d < 10,
    ensures
        r@ == seq![digit_char(d as nat)],
{
    proof {
        reveal_strlit("0");
        reveal_strlit("1");
        reveal_strlit("2");
        reveal_strlit("3");
        reveal_strlit("4");
        reveal_strlit("5");
        reveal_strlit("6");
        reveal_strlit("7");
        reveal_strlit("8");
        reveal_strlit("9");
    }
    match d {
        0 => "0",
        1 => "1",
        2 => "2",
        3 => "3",
        4 => "4",
        5 => "5",
        6 => "6",
        7 => "7",
        8 => "8",
        _ => "9",
    }
}

/// `n` written in decimal.
pub fn decimal(n: usize) -> (r: String)
    ensures
        r@ == decimal_spec(n as nat),
    decreases n,
{
    if n < 10 {
        String::from_str(digit_text(n))
    } else {
        let mut s = decimal(n / 10);
        s.append(digit_text(n % 10));
        s
    }
}

/// The strings of `items` separated by single spaces.
pub open spec fn join_spaced(items: Seq<Seq<char>>) -> Seq<char>
    decreases items.len(),
{
    if items.len() == 0 {
        Seq::empty()
    } else if items.len() == 1 {
        items[0]
    } else {
        join_spaced(items.drop_last()) + " "@ + items.last()
    }
}

/// The strings of `items` separated by single spaces.
pub fn join_with_spaces(items: &Vec<String>) -> (r: String)
    ensures
        r@ == join_spaced(strings_view(items@)),
{
    let ghost v = strings_view(items@);
    let mut r = String::new();
    let mut i: usize = 0;
    while i < items.len()
        invariant
            v == strings_view(items@),
            i <= items.len(),
            r@ == join_spaced(v.subrange(0, i as int)),
        decreases items.len() - i,
    {
        let ghost next = v.subrange(0, i as int + 1);
        assert(next.drop_last() =~= v.subrange(0, i as int));
        if i > 0 {
            r.append(" ");
        } else {
            assert(r@ + items@[0]@ =~= items@[0]@);
        }
        r.append(items[i].as_str());
        i = i + 1;
    }
    assert(v.subrange(0, v.len() as int) =~= v);
    r
}

/// `count` copies of `c`.
pub open spec fn repeated(c: char, count: nat) -> Seq<char> {
    Seq::new(count, |i: int| c)
}

/// A rule of `count` equal signs.
pub fn rule_line(count: usize) -> (r: String)
    ensures
        r@ == repeated('=', count as nat),
{
    let mut r = String::new();
    let mut i: usize = 0;
    while i < count
        invariant
            i <= count,
            r@ == repeated('=', i as nat),
        decreases count - i,
    {
        proof {
            reveal_strlit("=");
        }
        r.append("=");
        assert(r@ =~= repeated('=', i as nat + 1));
        i = i + 1;
    }
    r
}

/// The numbered lines that show an argument list, one per argument.
pub open spec fn numbered_args(args: Seq<Seq<char>>) -> Seq<Seq<char>> {
    Seq::new(args.len(), |i: int| "  ["@ + decimal_spec(i as nat) + "] "@ + args[i])
}

/// What `print` shows of the configuration `name`, down to the heading of
/// its file's location.
pub open spec fn detail_lines_spec(name: Seq<char>, c: QemuConfig) -> Seq<Seq<char>> {
    seq!["Configuration: "@ + name, repeated('=', 60), Seq::empty()] + (match opt_view(c.desc) {
        Some(d) => seq!["Description:"@, "  "@ + d, Seq::empty()],
        None => Seq::empty(),
    }) + seq!["QEMU Binary:"@, "  "@ + c.qemu_bin@, Seq::empty(), "Startup Arguments:"@] + (
    if c.args@.len() == 0 {
        seq!["  (no arguments)"@]
    } else {
        numbered_args(strings_view(c.args@))
    }) + seq![
        Seq::empty(),
        "Full Command:"@,
        "  "@ + c.qemu_bin@ + " "@ + join_spaced(strings_view(c.args@)),
        Seq::empty(),
        "Configuration File:"@,
    ]
}

/// The lines `print` shows for the configuration `name`.
pub fn detail_lines(name: &str, config: &QemuConfig) -> (r: Vec<String>)
    ensures
        strings_view(r@) == detail_lines_spec(name@, *config),
{
    let mut r: Vec<String> = Vec::new();
    r.push(join2("Configuration: ", name));
    r.push(rule_line(60));
    r.push(String::new());
    match &config.desc {
        Some(d) => {
            r.push(String::from_str("Description:"));
            r.push(join2("  ", d.as_str()));
            r.push(String::new());
        },
        None => {},
    }
    r.push(String::from_str("QEMU Binary:"));
    r.push(join2("  ", config.qemu_bin.as_str()));
    r.push(String::new());
    r.push(String::from_str("Startup Arguments:"));
    let ghost head = strings_view(r@);
    let ghost av = strings_view(config.args@);
    if config.args.len() == 0 {
        r.push(String::from_str("  (no arguments)"));
    } else {
        let mut i: usize = 0;
        while i < config.args.len()
            invariant
                av == strings_view(config.args@),
                i <= config.args.len(),
                strings_view(r@) == head + numbered_args(av).subrange(0, i as int),
            decreases config.args.len() - i,
        {
            let ghost before = strings_view(r@);
            let mut line = join3("  [", decimal(i).as_str(), "] ");
            line.append(config.args[i].as_str());
            assert(line@ == numbered_args(av)[i as int]);
            r.push(line);
            assert(strings_view(r@) =~= before.push(line@));
            assert(numbered_args(av).subrange(0, i as int + 1) =~= numbered_args(av).subrange(
                0,
                i as int,
            ).push(line@));
            assert(strings_view(r@) =~= head + numbered_args(av).subrange(0, i as int + 1));
            i = i + 1;
        }
        assert(numbered_args(av).subrange(0, av.len() as int) =~= numbered_args(av));
    }
    let ghost args_part = if config.args@.len() == 0 {
        seq!["  (no arguments)"@]
    } else {
        numbered_args(av)
    };
    assert(strings_view(r@) =~= head + args_part);
    assert(head =~= seq!["Configuration: "@ + name@, repeated('=', 60), Seq::empty()] + (match opt_view(config.desc) {
        Some(d) => seq!["Description:"@, "  "@ + d, Seq::empty()],
        None => Seq::empty(),
    }) + seq!["QEMU Binary:"@, "  "@ + config.qemu_bin@, Seq::empty(), "Startup Arguments:"@]);
    let ghost mid = strings_view(r@);
    r.push(String::new());
    r.push(String::from_str("Full Command:"));
    let mut full = join3("  ", config.qemu_bin.as_str(), " ");
    let joined = join_with_spaces(&config.args);
    full.append(joined.as_str());
    r.push(full);
    r.push(String::new());
    r.push(String::from_str("Configuration File:"));
    assert(strings_view(r@) =~= mid + seq![
        Seq::empty(),
        "Full Command:"@,
        "  "@ + config.qemu_bin@ + " "@ + join_spaced(av),
        Seq::empty(),
        "Configuration File:"@,
    ]);
    assert(strings_view(r@) =~= detail_lines_spec(name@, *config));
    r
}

/// The four lines `list` shows for one configuration.
pub open spec fn entry_lines(name: Seq<char>, c: QemuConfig) -> Seq<Seq<char>> {
    seq![
        "  "@ + name + " - "@ + match opt_view(c.desc) {
            Some(d) => d,
            None => "(no description)"@,
        },
        "    QEMU: "@ + c.qemu_bin@,
        "    Args: "@ + debug_list_of(strings_view(c.args@)),
        Seq::empty(),
    ]
}

pub open spec fn entries_lines(items: Seq<(String, QemuConfig)>) -> Seq<Seq<char>>
    decreases items.len(),
{
    if items.len() == 0 {
        Seq::empty()
    } else {
        entries_lines(items.drop_last()) + entry_lines(items.last().0@, items.last().1)
    }
}

/// What `list` shows for the configurations `items`.
pub open spec fn listing_lines_spec(items: Seq<(String, QemuConfig)>) -> Seq<Seq<char>> {
    if items.len() == 0 {
        seq!["No configurations found."@]
    } else {
        seq!["Saved configurations:"@] + entries_lines(items)
    }
}

/// The lines `list` shows for the named configurations `items`.
pub fn listing_lines(items: &Vec<(String, QemuConfig)>) -> (r: Vec<String>)
    ensures
        strings_view(r@) == listing_lines_spec(items@),
{
    let mut r: Vec<String> = Vec::new();
    if items.len() == 0 {
        r.push(String::from_str("No configurations found."));
        assert(strings_view(r@) =~= listing_lines_spec(items@));
        return r;
    }
    r.push(String::from_str("Saved configurations:"));
    let mut i: usize = 0;
    while i < items.len()
        invariant
            i <= items.len(),
            strings_view(r@) == seq!["Saved configurations:"@] + entries_lines(
                items@.subrange(0, i as int),
            ),
        decreases items.len() - i,
    {
        let ghost before = strings_view(r@);
        let name = &items[i].0;
        let c = &items[i].1;
        let mut first = join3("  ", name.as_str(), " - ");
        match &c.desc {
            Some(d) => first.append(d.as_str()),
            None => first.append("(no description)"),
        }
        r.push(first);
        r.push(join2("    QEMU: ", c.qemu_bin.as_str()));
        let listed = debug_list(&c.args);
        r.push(join2("    Args: ", listed.as_str()));
        r.push(String::new());
        let ghost next = items@.subrange(0, i as int + 1);
        assert(next.drop_last() =~= items@.subrange(0, i as int));
        assert(strings_view(r@) =~= before + entry_lines(name@, *c));
        i = i + 1;
    }
    assert(items@.subrange(0, items@.len() as int) =~= items@);
    r
}

} // verus!
