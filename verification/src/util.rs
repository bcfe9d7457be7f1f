use vstd::prelude::*;

verus! {

/// The character that renders a single decimal digit.
pub open spec fn dec_digit(d: nat) -> char {
    if d == 0 {
        '0'
    } else if d == 1 {
        '1'
    } else if d == 2 {
        '2'
    } else if d == 3 {
        '3'
    } else if d == 4 {
        '4'
    } else if d == 5 {
        '5'
    } else if d == 6 {
        '6'
    } else if d == 7 {
        '7'
    } else if d == 8 {
        '8'
    } else {
        '9'
    }
}

/// The base-10 rendering of a natural number, most significant digit first.
pub open spec fn dec_rep(n: nat) -> Seq<char>
    decreases n,
{
    if n < 10 {
        seq![dec_digit(n)]
    } else {
        dec_rep(n / 10).push(dec_digit(n % 10))
    }
}

fn digit_str(d: u64) -> (r: &'static str)
    requires
        d < 10,
    ensures
        r@ == seq![dec_digit(d as nat)],
{
    proof {
        reveal_strlit("0");
        reveal_strlit("1");
        reveal_strlit("2");
        reveal_strlit("3");
        reveal_strlit("4");
        reveal_strlit("5");
        reveal_strlit("6");
        reveal_strlit("7");
        reveal_strlit("8");
        reveal_strlit("9");
    }
    let r: &'static str = if d == 0 {
        "0"
    } else if d == 1 {
        "1"
    } else if d == 2 {
        "2"
    } else if d == 3 {
        "3"
    } else if d == 4 {
        "4"
    } else if d == 5 {
        "5"
    } else if d == 6 {
        "6"
    } else if d == 7 {
        "7"
    } else if d == 8 {
        "8"
    } else {
        "9"
    };
    proof {
        assert(r@ =~= seq![dec_digit(d as nat)]);
    }
    r
}

/// Renders a number in base 10, as the wire protocol and the heartbeat keys
/// need it.
pub fn u64_to_dec(n: u64) -> (s: String)
    ensures
        s@ == dec_rep(n as nat),
    decreases n,
{
    if n < 10 {
        digit_str(n).to_owned()
    } else {
        let mut s = u64_to_dec(n / 10);
        s.append(digit_str(n % 10));
        proof {
            assert(s@ =~= dec_rep(n as nat));
        }
        s
    }
}

/// The canonical grouped form of a service name: `{group}@@{name}`.
pub open spec fn spec_grouped(group: Seq<char>, name: Seq<char>) -> Seq<char> {
    group + "@@"@ + name
}

/// Combines a service name with its group, `"{group}@@{name}"`; every
/// identifier below the facade is in this form.
pub fn grouped_service_name(service_name: &str, group_name: &str) -> (r: String)
    ensures
        r@ == spec_grouped(group_name@, service_name@),
{
    let mut r = group_name.to_owned();
    r.append("@@");
    r.append(service_name);
    proof {
        assert(r@ =~= spec_grouped(group_name@, service_name@));
    }
    r
}

/// The comma-joined rendering of a list of strings, in the given order.
pub open spec fn csv_rep(parts: Seq<Seq<char>>) -> Seq<char>
    decreases parts.len(),
{
    if parts.len() == 0 {
        Seq::empty()
    } else if parts.len() == 1 {
        parts[0]
    } else {
        csv_rep(parts.drop_last()) + ","@ + parts.last()
    }
}

/// Joins strings with `,`, as cluster lists are sent and cache keys are
/// composed.
pub fn join_csv(parts: &Vec<String>) -> (r: String)
    ensures
        r@ == csv_rep(parts@.map_values(|p: String| p@)),
{
    let ghost all: Seq<Seq<char>> = parts@.map_values(|p: String| p@);
    let mut r = String::new();
    let mut i: usize = 0;
    while i < parts.len()
        invariant
            i <= parts.len(),
            all == parts@.map_values(|p: String| p@),
            r@ == csv_rep(all.subrange(0, i as int)),
        decreases parts.len() - i,
    {
        if i > 0 {
            r.append(",");
        }
        r.append(parts[i].as_str());
        proof {
            let pre = all.subrange(0, i as int);
            let cur = all.subrange(0, i + 1 as int);
            assert(cur.drop_last() =~= pre);
            assert(cur.last() == all[i as int]);
            if i == 0 {
                assert(r@ =~= csv_rep(cur));
            } else {
                assert(r@ =~= csv_rep(cur));
            }
        }
        i = i + 1;
    }
    proof {
        assert(all.subrange(0, parts.len() as int) =~= all);
    }
    r
}

} // verus!
