use vstd::prelude::*;
use vstd::string::{StrSliceExecFns, StringExecFns};

use crate::error::Error;
use crate::json_text::{as_text, error_text, json_accepts, member, parse_json};
use crate::path_buffer::{path_text, PathBuffer};

verus! {

/// The decimal digit character for `d` (0 to 9).
pub open spec fn digit_char(d: int) -> char {
    seq!['0', '1', '2', '3', '4', '5', '6', '7', '8', '9'][d]
}

/// The decimal text of `n`, most significant digit first, without leading zeros.
pub open spec fn decimal(n: nat) -> Seq<char>
    decreases n,
{
    if n < 10 {
        seq![digit_char(n as int)]
    } else {
        decimal(n / 10).push(digit_char((n % 10) as int))
    }
}

/// The generated node name for a binary and its websocket port: `<bin>-<port>`.
pub open spec fn generated_name(bin: Seq<char>, ws_port: u16) -> Seq<char> {
    bin + seq!['-'] + decimal(ws_port as nat)
}

fn digit_str(d: u16) -> (r: &'static str)
    requires
        d < 10,
    ensures
        r@ == seq![digit_char(d as int)],
{
    proof {
        reveal_strlit("0");
        reveal_strlit("1");
        reveal_strlit("2");
        reveal_strlit("3");
        reveal_strlit("4");
        reveal_strlit("5");
        reveal_strlit("6");
        reveal_strlit("7");
        reveal_strlit("8");
        reveal_strlit("9");
    }
    match d {
        0 => "0",
        1 => "1",
        2 => "2",
        3 => "3",
        4 => "4",
        5 => "5",
        6 => "6",
        7 => "7",
        8 => "8",
        _ => "9",
    }
}

/// Appends the decimal text of `n` to `out`.
pub fn push_decimal(out: &mut String, n: u16)
    ensures
        final(out)@ == old(out)@ + decimal(n as nat),
    decreases n,
{
    if n >= 10 {
        push_decimal(out, n / 10);
        out.append(digit_str(n % 10));
        assert(old(out)@ + decimal(n as nat) =~= old(out)@ + decimal((n / 10) as nat) + seq![
            digit_char((n % 10) as int),
        ]);
    } else {
        out.append(digit_str(n));
    }
}

/// The decimal text of a port number, as it is passed on a command line.
pub fn port_to_string(port: u16) -> (r: String)
    ensures
        r@ == decimal(port as nat),
{
    let mut out = String::new();
    push_decimal(&mut out, port);
    assert(Seq::<char>::empty() + decimal(port as nat) =~= decimal(port as nat));
    out
}

/// The path as UTF-8 text, or `InvalidPath` when it is not representable so.
pub fn path_to_string(path: &PathBuffer) -> (r: Result<String, Error>)
    ensures
        match r {
            Ok(s) => path_text(path@) == Some(s@),
            Err(e) => path_text(path@) is None && e == Error::InvalidPath,
        },
{
    path.to_string()
}

/// A node name generated from its binary and websocket port: `<bin>-<port>`.
pub fn get_name(bin: &str, ws_port: u16) -> (r: String)
    ensures
        r@ == generated_name(bin@, ws_port),
{
    proof {
        reveal_strlit("-");
    }
    let mut out = String::from_str(bin);
    out.append("-");
    push_decimal(&mut out, ws_port);
    out
}

} // verus!

verus! {

/// The texts of a sequence of strings.
pub open spec fn texts(v: Seq<String>) -> Seq<Seq<char>> {
    v.map_values(|s: String| s@)
}

/// A copy of the strings.
pub fn copy_texts(v: &Vec<String>) -> (r: Vec<String>)
    ensures
        texts(r@) == texts(v@),
{
    let mut out: Vec<String> = Vec::new();
    let mut i: usize = 0;
    while i < v.len()
        invariant
            i <= v@.len(),
            out@.len() == i,
            forall|k: int| 0 <= k < i ==> (#[trigger] out@[k])@ == v@[k]@,
        decreases v@.len() - i,
    {
        let s = v[i].clone();
        out.push(s);
        i = i + 1;
    }
    assert(texts(out@) =~= texts(v@));
    out
}

} // verus!

verus! {

/// The `/`-separated components of a text, empty ones included.
pub open spec fn components(s: Seq<char>) -> Seq<Seq<char>>
    decreases s.len(),
{
    if s.len() == 0 {
        seq![seq![]]
    } else {
        let p = components(s.drop_last());
        if s.last() == '/' {
            p.push(seq![])
        } else {
            p.update(p.len() - 1, p.last().push(s.last()))
        }
    }
}

/// The components joined again, each after a `/`, leaving out every
/// `Cargo.toml`.
pub open spec fn root_of(parts: Seq<Seq<char>>) -> Seq<char>
    decreases parts.len(),
{
    if parts.len() == 0 {
        seq![]
    } else if parts.last() == "Cargo.toml"@ {
        root_of(parts.drop_last())
    } else {
        root_of(parts.drop_last()) + seq!['/'] + parts.last()
    }
}

/// The directory of a manifest path: every component after the first, each
/// after a `/`, without `Cargo.toml`.
pub open spec fn project_dir_of(path: Seq<char>) -> Seq<char> {
    root_of(components(path).subrange(1, components(path).len() as int))
}

proof fn lemma_components_nonempty(s: Seq<char>)
    ensures
        components(s).len() >= 1,
    decreases s.len(),
{
    if s.len() > 0 {
        lemma_components_nonempty(s.drop_last());
    }
}

/// Appends `/` and the component unless it is `Cargo.toml`.
fn push_component(acc: &mut String, part: &str)
    ensures
        final(acc)@ == if part@ == "Cargo.toml"@ {
            old(acc)@
        } else {
            old(acc)@ + seq!['/'] + part@
        },
{
    let part_text = part.to_owned();
    let manifest = "Cargo.toml".to_owned();
    if !(part_text == manifest) {
        proof {
            reveal_strlit("/");
        }
        acc.append("/");
        acc.append(part);
    }
}

/// The project directory of a manifest path such as
/// `/home/me/project/Cargo.toml`: `/home/me/project`.
pub fn project_dir(path: &str) -> (r: String)
    ensures
        r@ == project_dir_of(path@),
{
    let n = path.unicode_len();
    let mut acc = String::new();
    let mut start: usize = 0;
    let mut first = true;
    let mut i: usize = 0;
    while i < n
        invariant
            n == path@.len(),
            start <= i <= n,
            components(path@.subrange(0, i as int)).len() >= 1,
            components(path@.subrange(0, i as int)).last() == path@.subrange(start as int, i as int),
            first <==> components(path@.subrange(0, i as int)).len() == 1,
            !first ==> acc@ == root_of(
                components(path@.subrange(0, i as int)).subrange(
                    1,
                    components(path@.subrange(0, i as int)).len() - 1,
                ),
            ),
            first ==> acc@ == Seq::<char>::empty(),
        decreases n - i,
    {
        let ghost p = components(path@.subrange(0, i as int));
        assert(path@.subrange(0, i + 1).drop_last() =~= path@.subrange(0, i as int));
        assert(path@.subrange(0, i + 1).last() == path@[i as int]);
        let c = path.get_char(i);
        if c == '/' {
            if !first {
                let part = path.substring_char(start, i);
                push_component(&mut acc, part);
                assert(p.subrange(1, p.len() as int).drop_last() =~= p.subrange(1, p.len() - 1));
            }
            let ghost q = components(path@.subrange(0, i + 1));
            assert(q.subrange(1, q.len() - 1) =~= p.subrange(1, p.len() as int));
            first = false;
            start = i + 1;
            assert(path@.subrange(start as int, i + 1) =~= Seq::<char>::empty());
        } else {
            let ghost q = components(path@.subrange(0, i + 1));
            assert(q.last() =~= path@.subrange(start as int, i + 1));
            if !first {
                assert(q.subrange(1, q.len() - 1) =~= p.subrange(1, p.len() - 1));
            }
        }
        i = i + 1;
    }
    assert(path@.subrange(0, n as int) =~= path@);
    let ghost p = components(path@);
    if !first {
        let part = path.substring_char(start, n);
        push_component(&mut acc, part);
        assert(p.subrange(1, p.len() as int).drop_last() =~= p.subrange(1, p.len() - 1));
    } else {
        assert(p.subrange(1, p.len() as int) =~= Seq::<Seq<char>>::empty());
    }
    acc
}

} // verus!

verus! {

/// The project directory named by the output of `cargo locate-project`, a
/// JSON object whose `root` member is the manifest path. Output that is not
/// JSON is a `ParseJson` error; a missing or non-text `root` is a
/// `ProcessFailed` error.
pub fn project_root(cargo_output: &str) -> (r: Result<String, Error>)
    ensures
        r matches Err(Error::ParseJson(_)) <==> !json_accepts(cargo_output@),
        r matches Ok(dir) ==> exists|manifest: Seq<char>| dir@ == project_dir_of(manifest),
        r is Err ==> r matches Err(Error::ParseJson(_)) || r matches Err(Error::ProcessFailed(_)),
{
    let parsed = match parse_json(cargo_output) {
        Ok(v) => v,
        Err(e) => return Err(Error::ParseJson(error_text(&e))),
    };
    match as_text(member(&parsed, "root")) {
        Some(manifest) => Ok(project_dir(manifest.as_str())),
        None => Err(Error::ProcessFailed("no project root".to_owned())),
    }
}

} // verus!
