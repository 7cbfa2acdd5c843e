//! The greetings, the thanks that answer them, and random indices.

use vstd::prelude::*;
use vstd::string::*;
use rand::Rng;
use crate::landing::TalkRequest;
use crate::text::{
    chars_of, contains, contains_text, decimal, first_quoted, has_prefix, indent, indent_of, lines,
    lines_of, push_str_chars, quoted, starts_with, str_eq, string_of, trim, trimmed,
    u64_to_string, views,
};

verus! {

/// The greetings, by index.
pub const HELLOS: [&'static str; 6] = ["Hello", "Bonjour", "Hola", "こんにちは", "Ciao", "안녕하세요"];

/// The greeting at index `i`.
pub open spec fn greeting(i: int) -> Seq<char>
    recommends
        0 <= i < 6,
{
    HELLOS[i]@
}

/// Whether `key` is a greeting that has its thanks.
pub open spec fn is_greeting(key: Seq<char>) -> bool {
    key == "你好"@ || key == "Hello"@ || key == "Bonjour"@ || key == "Hola"@ || key == "こんにちは"@
        || key == "Ciao"@ || key == "안녕하세요"@
}

/// The thanks that answer the greeting `key`.
pub open spec fn thanks_of(key: Seq<char>) -> Seq<char>
    recommends
        is_greeting(key),
{
    if key == "你好"@ {
        "非常感谢"@
    } else if key == "Hello"@ {
        "Thank you very much"@
    } else if key == "Bonjour"@ {
        "Merci beaucoup"@
    } else if key == "Hola"@ {
        "Muchas Gracias"@
    } else if key == "こんにちは"@ {
        "どうも ありがとう ございます"@
    } else if key == "Ciao"@ {
        "Mille Grazie"@
    } else {
        "대단히 감사합니다"@
    }
}

/// Every greeting of the table has its thanks.
pub proof fn lemma_table_greetings_have_thanks(i: int)
    requires
        0 <= i < 6,
    ensures
        is_greeting(greeting(i)),
{
}

/// The thanks that answer `key`, or `None` where `key` is no greeting.
pub fn lookup_thanks(key: &str) -> (r: Option<&'static str>)
    ensures
        match r {
            Some(t) => is_greeting(key@) && t@ == thanks_of(key@),
            None => !is_greeting(key@),
        },
{
    if str_eq(key, "你好") {
        Some("非常感谢")
    } else if str_eq(key, "Hello") {
        Some("Thank you very much")
    } else if str_eq(key, "Bonjour") {
        Some("Merci beaucoup")
    } else if str_eq(key, "Hola") {
        Some("Muchas Gracias")
    } else if str_eq(key, "こんにちは") {
        Some("どうも ありがとう ございます")
    } else if str_eq(key, "Ciao") {
        Some("Mille Grazie")
    } else if str_eq(key, "안녕하세요") {
        Some("대단히 감사합니다")
    } else {
        None
    }
}

/// The thanks that answer the greeting `key`.
pub fn thanks(key: &str) -> (r: &'static str)
    requires
        is_greeting(key@),
    ensures
        r@ == thanks_of(key@),
{
    lookup_thanks(key).unwrap()
}

/// A number from 0 up to, not including, `max`, drawn by rand's thread-local
/// generator: `Rng::gen_range` on `0..max`. The range must not be empty.
#[verifier::external_body]
fn random_below(max: i32) -> (r: i32)
    requires
        max > 0,
    ensures
        0 <= r < max,
{
    rand::thread_rng().gen_range(0..max)
}

/// Whether `text` writes a number from 0 up to, not including, `max`.
pub open spec fn is_id_below(text: Seq<char>, max: int) -> bool {
    exists|v: nat| v < max && text == #[trigger] decimal(v)
}

/// A random number from 0 up to, not including, `max`, in decimal.
pub fn random_id(max: i32) -> (id: String)
    requires
        max > 0,
    ensures
        is_id_below(id@, max as int),
{
    let value = random_below(max);
    let id = u64_to_string(value as u64);
    assert(id@ == decimal(value as nat));
    id
}

/// Three requests from this client, each for a random greeting of the first
/// five.
pub fn build_link_requests() -> (requests: Vec<TalkRequest>)
    ensures
        requests.len() == 3,
        forall|i: int|
            0 <= i < 3 ==> (#[trigger] requests[i]).meta@ == "RUST"@ && is_id_below(
                requests[i].data@,
                5,
            ),
{
    let mut requests: Vec<TalkRequest> = Vec::new();
    let mut n: usize = 0;
    while n < 3
        invariant
            n <= 3,
            requests.len() == n,
            forall|i: int|
                0 <= i < n ==> (#[trigger] requests[i]).meta@ == "RUST"@ && is_id_below(
                    requests[i].data@,
                    5,
                ),
        decreases 3 - n,
    {
        let request = TalkRequest { data: random_id(5), meta: String::from_str("RUST") };
        let ghost before = requests@;
        requests.insert(0, request);
        assert forall|i: int| 0 <= i < n + 1 implies (#[trigger] requests[i]).meta@ == "RUST"@
            && is_id_below(requests[i].data@, 5) by {
            if i > 0 {
                assert(requests[i] == before[i - 1]);
            }
        }
        n += 1;
    }
    requests
}

// ---------------------------------------------------------------------------
// The versions of the libraries, as a manifest states them

/// The number of bytes of white space that `line` begins with, as far as it
/// fits in `usize`.
pub open spec fn capped_indent(line: Seq<char>) -> nat {
    if indent_of(line) <= usize::MAX {
        indent_of(line)
    } else {
        usize::MAX as nat
    }
}

/// The version that the lines state in a block. A line that holds `start`
/// opens the block and sets its depth; inside the block the first line that
/// begins with `version` and holds a `"` gives the version; a line that is
/// not blank and no deeper than the block ends the search.
pub open spec fn scan_block(
    lines: Seq<Seq<char>>,
    start: Seq<char>,
    in_block: bool,
    block_indent: nat,
) -> Option<Seq<char>>
    decreases lines.len(),
{
    if lines.len() == 0 {
        None
    } else {
        let line = lines[0];
        let rest = lines.drop_first();
        if contains_text(line, start) {
            scan_block(rest, start, true, capped_indent(line))
        } else if !in_block {
            scan_block(rest, start, false, block_indent)
        } else if has_prefix(trimmed(line), "version"@) && quoted(line) is Some {
            quoted(line)
        } else if trimmed(line).len() > 0 && capped_indent(line) <= block_indent {
            None
        } else {
            scan_block(rest, start, true, block_indent)
        }
    }
}

/// The version that `content` states in the block that the line `start_line`
/// opens.
pub open spec fn version_in_block(content: Seq<char>, start_line: Seq<char>) -> Option<Seq<char>> {
    scan_block(lines_of(content), start_line, false, 0)
}

/// The version that `cargo_content` states in the block that the line
/// `start_line` opens.
pub fn extract_version_from_block(cargo_content: &str, start_line: &str) -> (r: Option<String>)
    ensures
        match r {
            Some(version) => version_in_block(cargo_content@, start_line@) == Some(version@),
            None => version_in_block(cargo_content@, start_line@) is None,
        },
{
    let content = chars_of(cargo_content);
    let start = chars_of(start_line);
    let all = lines(&content);
    let mut in_block = false;
    let mut block_indent: usize = 0;
    let mut i: usize = 0;
    assert(views(all@).skip(0) =~= views(all@));
    while i < all.len()
        invariant
            i <= all.len(),
            start@ == start_line@,
            views(all@) == lines_of(cargo_content@),
            version_in_block(cargo_content@, start_line@) == scan_block(
                views(all@).skip(i as int),
                start@,
                in_block,
                block_indent as nat,
            ),
        decreases all.len() - i,
    {
        let line = &all[i];
        let ghost tail = views(all@).skip(i as int);
        assert(tail[0] == line@);
        assert(tail.drop_first() =~= views(all@).skip(i + 1));
        if contains(line, &start) {
            in_block = true;
            block_indent = indent(line);
            i += 1;
            continue ;
        }
        if in_block {
            let line_trimmed = trim(line);
            if starts_with(&line_trimmed, &chars_of("version")) {
                match first_quoted(line) {
                    Some(version) => {
                        return Some(string_of(&version));
                    },
                    None => {},
                }
            }
            let current_indent = indent(line);
            if line_trimmed.len() > 0 && current_indent <= block_indent {
                return None;
            }
        }
        i += 1;
    }
    None
}

/// The version of the library `name` that the lines state. A line
/// `name = "version"` gives it at once; a line that opens a block for `name`
/// hands the search over to the block in `content`.
pub open spec fn find_dependency(lines: Seq<Seq<char>>, content: Seq<char>, name: Seq<char>) -> Option<
    Seq<char>,
>
    decreases lines.len(),
{
    if lines.len() == 0 {
        None
    } else {
        let line = trimmed(lines[0]);
        let rest = lines.drop_first();
        if has_prefix(line, name + " ="@) {
            if quoted(line) is Some {
                quoted(line)
            } else {
                find_dependency(rest, content, name)
            }
        } else if has_prefix(line, name + " {"@) || has_prefix(line, name + "{"@) {
            version_in_block(content, line)
        } else {
            find_dependency(rest, content, name)
        }
    }
}

/// The version of the library `name` that `content` states.
pub open spec fn dependency_version(content: Seq<char>, name: Seq<char>) -> Option<Seq<char>> {
    find_dependency(lines_of(content), content, name)
}

/// The version of the library `dependency_name` that `cargo_content` states.
pub fn extract_dependency_version(cargo_content: &str, dependency_name: &str) -> (r: Option<String>)
    ensures
        match r {
            Some(version) => dependency_version(cargo_content@, dependency_name@) == Some(
                version@,
            ),
            None => dependency_version(cargo_content@, dependency_name@) is None,
        },
{
    let content = chars_of(cargo_content);
    let all = lines(&content);
    let mut simple = chars_of(dependency_name);
    push_str_chars(&mut simple, " =");
    let mut spaced = chars_of(dependency_name);
    push_str_chars(&mut spaced, " {");
    let mut tight = chars_of(dependency_name);
    push_str_chars(&mut tight, "{");
    let mut i: usize = 0;
    assert(views(all@).skip(0) =~= views(all@));
    while i < all.len()
        invariant
            i <= all.len(),
            simple@ == dependency_name@ + " ="@,
            spaced@ == dependency_name@ + " {"@,
            tight@ == dependency_name@ + "{"@,
            views(all@) == lines_of(cargo_content@),
            dependency_version(cargo_content@, dependency_name@) == find_dependency(
                views(all@).skip(i as int),
                cargo_content@,
                dependency_name@,
            ),
        decreases all.len() - i,
    {
        let ghost tail = views(all@).skip(i as int);
        assert(tail[0] == all@[i as int]@);
        assert(tail.drop_first() =~= views(all@).skip(i + 1));
        let line = trim(&all[i]);
        if starts_with(&line, &simple) {
            match first_quoted(&line) {
                Some(version) => {
                    return Some(string_of(&version));
                },
                None => {},
            }
        } else if starts_with(&line, &spaced) || starts_with(&line, &tight) {
            let start_line = string_of(&line);
            return extract_version_from_block(cargo_content, start_line.as_str());
        }
        i += 1;
    }
    None
}

/// The versions as one line, with `unknown` for a version that is not stated.
pub open spec fn version_line(tonic: Option<Seq<char>>, prost: Option<Seq<char>>) -> Seq<char> {
    "tonic.version="@ + (match tonic {
        Some(v) => v,
        None => "unknown"@,
    }) + " (prost.version="@ + (match prost {
        Some(v) => v,
        None => "unknown"@,
    }) + ")"@
}

/// The versions of the two libraries that carry the calls, as the manifest
/// `cargo_content` states them; without a manifest, the versions that this
/// program was written for.
pub fn get_version(cargo_content: Option<&str>) -> (version: String)
    ensures
        version@ == match cargo_content {
            Some(content) => version_line(
                dependency_version(content@, "tonic"@),
                dependency_version(content@, "prost"@),
            ),
            None => "tonic.version=0.9.2 (prost.version=0.11.9)"@,
        },
{
    match cargo_content {
        Some(content) => {
            let tonic = extract_dependency_version(content, "tonic");
            let prost = extract_dependency_version(content, "prost");
            let mut chars: Vec<char> = Vec::new();
            push_str_chars(&mut chars, "tonic.version=");
            match &tonic {
                Some(v) => push_str_chars(&mut chars, v.as_str()),
                None => push_str_chars(&mut chars, "unknown"),
            }
            push_str_chars(&mut chars, " (prost.version=");
            match &prost {
                Some(v) => push_str_chars(&mut chars, v.as_str()),
                None => push_str_chars(&mut chars, "unknown"),
            }
            push_str_chars(&mut chars, ")");
            assert(chars@ =~= version_line(
                dependency_version(content@, "tonic"@),
                dependency_version(content@, "prost"@),
            ));
            string_of(&chars)
        },
        None => String::from_str("tonic.version=0.9.2 (prost.version=0.11.9)"),
    }
}

} // verus!
