//! Compact JSON text, as the gateway is sent it. Strings are quoted by
//! `serde_json`; numbers, and how the parts are put together into objects
//! and arrays, are written, stated and proved here.

use vstd::prelude::*;
use vstd::string::*;

verus! {

/// How one character stands inside a JSON string: the quote, the backslash
/// and the control characters below U+0020 are escaped, each in its shortest
/// form; every other character stands for itself.
pub open spec fn escaped_char(c: char) -> Seq<char> {
    if c == '"' {
        seq!['\\', '"']
    } else if c == '\\' {
        seq!['\\', '\\']
    } else if c == '\u{8}' {
        seq!['\\', 'b']
    } else if c == '\t' {
        seq!['\\', 't']
    } else if c == '\n' {
        seq!['\\', 'n']
    } else if c == '\u{c}' {
        seq!['\\', 'f']
    } else if c == '\r' {
        seq!['\\', 'r']
    } else if (c as u32) < 0x20 {
        seq![
            '\\',
            'u',
            '0',
            '0',
            "0123456789abcdef"@[(c as u32 / 16) as int],
            "0123456789abcdef"@[(c as u32 % 16) as int],
        ]
    } else {
        seq![c]
    }
}

/// The characters of `text`, each as it stands inside a JSON string.
pub open spec fn escaped(text: Seq<char>) -> Seq<char>
    decreases text.len(),
{
    if text.len() == 0 {
        Seq::empty()
    } else {
        escaped(text.drop_last()) + escaped_char(text.last())
    }
}

/// `text` as a JSON string.
pub open spec fn quoted(text: Seq<char>) -> Seq<char> {
    seq!['"'] + escaped(text) + seq!['"']
}

/// The decimal digits of a number that is not negative, without leading
/// zeros.
pub open spec fn digits(n: int) -> Seq<char>
    decreases n,
{
    if n < 10 {
        seq!["0123456789"@[n]]
    } else {
        digits(n / 10) + seq!["0123456789"@[n % 10]]
    }
}

/// A whole number as JSON writes it.
pub open spec fn decimal(n: int) -> Seq<char> {
    if n < 0 {
        seq!['-'] + digits(-n)
    } else {
        digits(n)
    }
}

/// A truth value as JSON writes it.
pub open spec fn boolean(b: bool) -> Seq<char> {
    if b {
        "true"@
    } else {
        "false"@
    }
}

/// One member of an object: its name, quoted as it is, a colon, its value.
/// Names are plain identifiers, so nothing in them needs escaping.
pub open spec fn member(name: Seq<char>, value: Seq<char>) -> Seq<char> {
    seq!['"'] + name + seq!['"', ':'] + value
}

/// Whether one of `parts` is there.
pub open spec fn any_present(parts: Seq<Option<Seq<char>>>) -> bool {
    exists|i: int| 0 <= i < parts.len() && parts[i] is Some
}

/// The parts that are there, in their order, with a comma between each two.
pub open spec fn joined(parts: Seq<Option<Seq<char>>>) -> Seq<char>
    decreases parts.len(),
{
    if parts.len() == 0 {
        Seq::empty()
    } else {
        match parts.last() {
            Some(part) => if any_present(parts.drop_last()) {
                joined(parts.drop_last()) + seq![','] + part
            } else {
                part
            },
            None => joined(parts.drop_last()),
        }
    }
}

/// A JSON object of the members that are there; a member that is `None` is
/// left out.
pub open spec fn object(members: Seq<Option<Seq<char>>>) -> Seq<char> {
    seq!['{'] + joined(members) + seq!['}']
}

/// A JSON array of the given items.
pub open spec fn array(items: Seq<Seq<char>>) -> Seq<char> {
    seq!['['] + joined(all_present(items)) + seq![']']
}

/// A member whose value is a string.
pub open spec fn text_member(name: Seq<char>, value: String) -> Option<Seq<char>> {
    Some(member(name, quoted(value@)))
}

/// A member whose value is a string, left out where there is none.
pub open spec fn opt_text_member(name: Seq<char>, value: Option<String>) -> Option<Seq<char>> {
    match value {
        Some(text) => Some(member(name, quoted(text@))),
        None => None,
    }
}

/// A member whose value is a number.
pub open spec fn number_member(name: Seq<char>, value: i32) -> Option<Seq<char>> {
    Some(member(name, decimal(value as int)))
}

/// A member whose value is a number, left out where there is none.
pub open spec fn opt_number_member(name: Seq<char>, value: Option<i32>) -> Option<Seq<char>> {
    match value {
        Some(n) => Some(member(name, decimal(n as int))),
        None => None,
    }
}

/// A member whose value is a truth value, left out where there is none.
pub open spec fn opt_boolean_member(name: Seq<char>, value: Option<bool>) -> Option<Seq<char>> {
    match value {
        Some(b) => Some(member(name, boolean(b))),
        None => None,
    }
}

/// A member whose value is JSON text already, left out where there is none.
pub open spec fn opt_json_member(name: Seq<char>, value: Option<Seq<char>>) -> Option<Seq<char>> {
    match value {
        Some(json) => Some(member(name, json)),
        None => None,
    }
}

/// Calls `serde_json::to_string` on a string slice.
///
/// Trusted: that the result is the text between two quotes, with exactly
/// the characters escaped that `escaped_char` names, as the crate's escape
/// table has it; and that this call cannot fail.
#[verifier::external_body]
pub(crate) fn json_string(text: &str) -> (res: String)
    ensures
        res@ == quoted(text@),
{
    serde_json::to_string(text).unwrap_or_default()
}

pub(crate) fn decimal_digit(d: u64) -> (res: &'static str)
    requires
        d < 10,
    ensures
        res@ == seq!["0123456789"@[d as int]],
{
    proof {
        reveal_strlit("0123456789");
        reveal_strlit("0");
        reveal_strlit("1");
        reveal_strlit("2");
        reveal_strlit("3");
        reveal_strlit("4");
        reveal_strlit("5");
        reveal_strlit("6");
        reveal_strlit("7");
        reveal_strlit("8");
        reveal_strlit("9");
    }
    let res = if d == 0 {
        "0"
    } else if d == 1 {
        "1"
    } else if d == 2 {
        "2"
    } else if d == 3 {
        "3"
    } else if d == 4 {
        "4"
    } else if d == 5 {
        "5"
    } else if d == 6 {
        "6"
    } else if d == 7 {
        "7"
    } else if d == 8 {
        "8"
    } else {
        "9"
    };
    assert(res@ =~= seq!["0123456789"@[d as int]]);
    res
}

/// A number in decimal, without leading zeros.
pub fn decimal_text(n: u64) -> (res: String)
    ensures
        res@ == digits(n as int),
    decreases n,
{
    if n < 10 {
        decimal_digit(n).to_owned()
    } else {
        let mut text = decimal_text(n / 10);
        text.append(decimal_digit(n % 10));
        text
    }
}

/// A whole number as JSON writes it.
pub fn number_text(n: i32) -> (res: String)
    ensures
        res@ == decimal(n as int),
{
    if n < 0 {
        proof {
            reveal_strlit("-");
        }
        let mut text = "-".to_owned();
        text.append(decimal_text((-(n as i64)) as u64).as_str());
        assert(text@ =~= decimal(n as int));
        text
    } else {
        decimal_text(n as u64)
    }
}

proof fn lemma_joined_push(parts: Seq<Option<Seq<char>>>, part: Option<Seq<char>>)
    ensures
        joined(parts.push(part)) == match part {
            Some(text) => if any_present(parts) {
                joined(parts) + seq![','] + text
            } else {
                text
            },
            None => joined(parts),
        },
        any_present(parts.push(part)) == (any_present(parts) || part is Some),
{
    let longer = parts.push(part);
    assert(longer.drop_last() =~= parts);
    assert(longer.last() == part);
    if any_present(parts) {
        let i = choose|i: int| 0 <= i < parts.len() && parts[i] is Some;
        assert(longer[i] is Some);
    }
    if part is Some {
        assert(longer[parts.len() as int] is Some);
    }
    if any_present(longer) {
        let i = choose|i: int| 0 <= i < longer.len() && longer[i] is Some;
        if i < parts.len() {
            assert(parts[i] is Some);
        }
    }
}

proof fn lemma_joined_nothing(parts: Seq<Option<Seq<char>>>)
    requires
        !any_present(parts),
    ensures
        joined(parts) == Seq::<char>::empty(),
    decreases parts.len(),
{
    if parts.len() > 0 {
        assert(parts[parts.len() - 1] is None);
        assert forall|i: int| 0 <= i < parts.drop_last().len() implies parts.drop_last()[i]
            is None by {
            assert(parts[i] is None);
        }
        lemma_joined_nothing(parts.drop_last());
    }
}

/// Writes the members of one object, in the order they are given.
pub(crate) struct ObjectWriter {
    text: String,
    started: bool,
    members: Ghost<Seq<Option<Seq<char>>>>,
}

impl ObjectWriter {
    pub(crate) closed spec fn wf(&self) -> bool {
        &&& self.started == any_present(self.members@)
        &&& self.text@ == seq!['{'] + joined(self.members@)
    }

    /// The members given so far; `None` for one that was left out.
    pub(crate) closed spec fn members(&self) -> Seq<Option<Seq<char>>> {
        self.members@
    }

    pub(crate) fn new() -> (res: Self)
        ensures
            res.wf(),
            res.members() == Seq::<Option<Seq<char>>>::empty(),
    {
        proof {
            reveal_strlit("{");
        }
        let res = ObjectWriter {
            text: "{".to_owned(),
            started: false,
            members: Ghost(Seq::empty()),
        };
        assert(res.text@ =~= seq!['{'] + joined(res.members@));
        res
    }

    /// Leaves a member out.
    pub(crate) fn skip(&mut self)
        requires
            old(self).wf(),
        ensures
            final(self).wf(),
            final(self).members() == old(self).members().push(None),
    {
        proof {
            lemma_joined_push(self.members@, None);
        }
        self.members = Ghost(self.members@.push(None));
    }

    /// Writes a member whose value is JSON text already.
    pub(crate) fn json(&mut self, name: &str, value: &str)
        requires
            old(self).wf(),
        ensures
            final(self).wf(),
            final(self).members() == old(self).members().push(Some(member(name@, value@))),
    {
        proof {
            reveal_strlit(",");
            reveal_strlit("\"");
            reveal_strlit("\":");
            lemma_joined_push(self.members@, Some(member(name@, value@)));
            if !self.started {
                lemma_joined_nothing(self.members@);
            }
        }
        if self.started {
            self.text.append(",");
        }
        self.text.append("\"");
        self.text.append(name);
        self.text.append("\":");
        self.text.append(value);
        self.started = true;
        self.members = Ghost(self.members@.push(Some(member(name@, value@))));
        assert(self.text@ =~= seq!['{'] + joined(self.members@));
    }

    pub(crate) fn text(&mut self, name: &str, value: &String)
        requires
            old(self).wf(),
        ensures
            final(self).wf(),
            final(self).members() == old(self).members().push(text_member(name@, *value)),
    {
        let quoted = json_string(value.as_str());
        self.json(name, quoted.as_str());
    }

    pub(crate) fn opt_text(&mut self, name: &str, value: &Option<String>)
        requires
            old(self).wf(),
        ensures
            final(self).wf(),
            final(self).members() == old(self).members().push(opt_text_member(name@, *value)),
    {
        match value {
            Some(text) => self.text(name, text),
            None => self.skip(),
        }
    }

    pub(crate) fn number(&mut self, name: &str, value: i32)
        requires
            old(self).wf(),
        ensures
            final(self).wf(),
            final(self).members() == old(self).members().push(number_member(name@, value)),
    {
        let text = number_text(value);
        self.json(name, text.as_str());
    }

    pub(crate) fn opt_number(&mut self, name: &str, value: Option<i32>)
        requires
            old(self).wf(),
        ensures
            final(self).wf(),
            final(self).members() == old(self).members().push(opt_number_member(name@, value)),
    {
        match value {
            Some(n) => self.number(name, n),
            None => self.skip(),
        }
    }

    pub(crate) fn opt_boolean(&mut self, name: &str, value: Option<bool>)
        requires
            old(self).wf(),
        ensures
            final(self).wf(),
            final(self).members() == old(self).members().push(opt_boolean_member(name@, value)),
    {
        match value {
            Some(true) => self.json(name, "true"),
            Some(false) => self.json(name, "false"),
            None => self.skip(),
        }
    }

    pub(crate) fn finish(self) -> (res: String)
        requires
            self.wf(),
        ensures
            res@ == object(self.members()),
    {
        proof {
            reveal_strlit("}");
        }
        let mut text = self.text;
        text.append("}");
        assert(text@ =~= object(self.members@));
        text
    }
}

/// The items of an array as parts that are all there.
pub open spec fn all_present(items: Seq<Seq<char>>) -> Seq<Option<Seq<char>>> {
    Seq::new(items.len(), |i: int| Some(items[i]))
}

/// Writes the items of one array, in the order they are given.
pub(crate) struct ArrayWriter {
    text: String,
    started: bool,
    items: Ghost<Seq<Seq<char>>>,
}

impl ArrayWriter {
    pub(crate) closed spec fn wf(&self) -> bool {
        &&& self.started == (self.items@.len() > 0)
        &&& self.text@ == seq!['['] + joined(all_present(self.items@))
    }

    /// The items given so far.
    pub(crate) closed spec fn items(&self) -> Seq<Seq<char>> {
        self.items@
    }

    pub(crate) fn new() -> (res: Self)
        ensures
            res.wf(),
            res.items() == Seq::<Seq<char>>::empty(),
    {
        proof {
            reveal_strlit("[");
        }
        let res = ArrayWriter { text: "[".to_owned(), started: false, items: Ghost(Seq::empty()) };
        assert(res.text@ =~= seq!['['] + joined(all_present(res.items@)));
        res
    }

    /// Writes an item that is JSON text already.
    pub(crate) fn item(&mut self, value: &str)
        requires
            old(self).wf(),
        ensures
            final(self).wf(),
            final(self).items() == old(self).items().push(value@),
    {
        let ghost before = all_present(self.items@);
        let ghost longer = self.items@.push(value@);
        proof {
            reveal_strlit(",");
            assert(all_present(longer) =~= before.push(Some(value@)));
            lemma_joined_push(before, Some(value@));
            if self.items@.len() > 0 {
                assert(before[0] is Some);
            } else {
                lemma_joined_nothing(before);
            }
        }
        if self.started {
            self.text.append(",");
        }
        self.text.append(value);
        self.started = true;
        self.items = Ghost(longer);
        assert(self.text@ =~= seq!['['] + joined(all_present(self.items@)));
    }

    pub(crate) fn finish(self) -> (res: String)
        requires
            self.wf(),
        ensures
            res@ == array(self.items()),
    {
        proof {
            reveal_strlit("]");
        }
        let mut text = self.text;
        text.append("]");
        assert(text@ =~= array(self.items@));
        text
    }
}

} // verus!
