//! The sixteen faces, their canonical names, and how a name is read back.

use vstd::prelude::*;
use vstd::string::*;

verus! {

/// One of the sixteen faces that can be mixed.
#[derive(Debug, Clone, Copy, PartialEq, Eq, Hash, Structural)]
pub enum SmileType {
    Grin,
    Angry,
    Flush,
    He,
    Mad,
    Plead,
    Sad,
    Sg,
    Shock,
    SlSmile,
    Sleep,
    Smiley,
    Tong,
    Unamus,
    Wink,
    Zany,
}

/// The text names none of the sixteen faces.
#[derive(Debug, Clone, Copy, PartialEq, Eq, Structural)]
pub struct UnknownIdentifier;

impl SmileType {
    /// Number of faces.
    pub const COUNT: usize = 16;

    /// Position of the face in declaration order.
    pub open spec fn index_spec(self) -> int {
        match self {
            SmileType::Grin => 0,
            SmileType::Angry => 1,
            SmileType::Flush => 2,
            SmileType::He => 3,
            SmileType::Mad => 4,
            SmileType::Plead => 5,
            SmileType::Sad => 6,
            SmileType::Sg => 7,
            SmileType::Shock => 8,
            SmileType::SlSmile => 9,
            SmileType::Sleep => 10,
            SmileType::Smiley => 11,
            SmileType::Tong => 12,
            SmileType::Unamus => 13,
            SmileType::Wink => 14,
            SmileType::Zany => 15,
        }
    }

    /// Canonical lower-case name of the face.
    pub open spec fn name_spec(self) -> Seq<char> {
        match self {
            SmileType::Grin => "grin"@,
            SmileType::Angry => "angry"@,
            SmileType::Flush => "flush"@,
            SmileType::He => "he"@,
            SmileType::Mad => "mad"@,
            SmileType::Plead => "plead"@,
            SmileType::Sad => "sad"@,
            SmileType::Sg => "sg"@,
            SmileType::Shock => "shock"@,
            SmileType::SlSmile => "sl_smile"@,
            SmileType::Sleep => "sleep"@,
            SmileType::Smiley => "smiley"@,
            SmileType::Tong => "tong"@,
            SmileType::Unamus => "unamus"@,
            SmileType::Wink => "wink"@,
            SmileType::Zany => "zany"@,
        }
    }

    /// Canonical name of the face.
    pub fn name(self) -> (r: &'static str)
        ensures
            r@ == self.name_spec(),
    {
        match self {
            SmileType::Grin => "grin",
            SmileType::Angry => "angry",
            SmileType::Flush => "flush",
            SmileType::He => "he",
            SmileType::Mad => "mad",
            SmileType::Plead => "plead",
            SmileType::Sad => "sad",
            SmileType::Sg => "sg",
            SmileType::Shock => "shock",
            SmileType::SlSmile => "sl_smile",
            SmileType::Sleep => "sleep",
            SmileType::Smiley => "smiley",
            SmileType::Tong => "tong",
            SmileType::Unamus => "unamus",
            SmileType::Wink => "wink",
            SmileType::Zany => "zany",
        }
    }

    /// Canonical name of the face, owned.
    pub fn to_string(&self) -> (r: String)
        ensures
            r@ == self.name_spec(),
    {
        self.name().to_owned()
    }
}

impl SmileType {
    /// The faces in declaration order.
    pub open spec fn all_spec() -> Seq<SmileType> {
        seq![
            SmileType::Grin,
            SmileType::Angry,
            SmileType::Flush,
            SmileType::He,
            SmileType::Mad,
            SmileType::Plead,
            SmileType::Sad,
            SmileType::Sg,
            SmileType::Shock,
            SmileType::SlSmile,
            SmileType::Sleep,
            SmileType::Smiley,
            SmileType::Tong,
            SmileType::Unamus,
            SmileType::Wink,
            SmileType::Zany,
        ]
    }

    /// Position of the face in declaration order.
    pub fn index(self) -> (r: usize)
        ensures
            r == self.index_spec(),
            r < SmileType::COUNT,
    {
        match self {
            SmileType::Grin => 0,
            SmileType::Angry => 1,
            SmileType::Flush => 2,
            SmileType::He => 3,
            SmileType::Mad => 4,
            SmileType::Plead => 5,
            SmileType::Sad => 6,
            SmileType::Sg => 7,
            SmileType::Shock => 8,
            SmileType::SlSmile => 9,
            SmileType::Sleep => 10,
            SmileType::Smiley => 11,
            SmileType::Tong => 12,
            SmileType::Unamus => 13,
            SmileType::Wink => 14,
            SmileType::Zany => 15,
        }
    }

    /// The face at a position of the declaration order, if there is one.
    pub fn get(index: usize) -> (r: Option<SmileType>)
        ensures
            r == (if index < SmileType::COUNT {
                Some(SmileType::all_spec()[index as int])
            } else {
                None
            }),
            r matches Some(k) ==> k.index_spec() == index,
    {
        match index {
            0 => Some(SmileType::Grin),
            1 => Some(SmileType::Angry),
            2 => Some(SmileType::Flush),
            3 => Some(SmileType::He),
            4 => Some(SmileType::Mad),
            5 => Some(SmileType::Plead),
            6 => Some(SmileType::Sad),
            7 => Some(SmileType::Sg),
            8 => Some(SmileType::Shock),
            9 => Some(SmileType::SlSmile),
            10 => Some(SmileType::Sleep),
            11 => Some(SmileType::Smiley),
            12 => Some(SmileType::Tong),
            13 => Some(SmileType::Unamus),
            14 => Some(SmileType::Wink),
            15 => Some(SmileType::Zany),
            _ => None,
        }
    }

    /// The faces in declaration order.
    pub fn all() -> (r: Vec<SmileType>)
        ensures
            r@ == SmileType::all_spec(),
    {
        let mut kinds: Vec<SmileType> = Vec::with_capacity(SmileType::COUNT);
        let mut i: usize = 0;
        while i < SmileType::COUNT
            invariant
                i <= SmileType::COUNT,
                kinds@.len() == i,
                forall|j: int| 0 <= j < i ==> #[trigger] kinds@[j] == SmileType::all_spec()[j],
            decreases SmileType::COUNT - i,
        {
            kinds.push(SmileType::get(i).unwrap());
            i += 1;
        }
        assert(kinds@ =~= SmileType::all_spec());
        kinds
    }
}

/// The route segment that may stand before a name.
pub open spec fn route_prefix() -> Seq<char> {
    "/json/"@
}

/// The file extension that may stand behind a name.
pub open spec fn file_suffix() -> Seq<char> {
    ".json"@
}

/// A name wrapped in the route segment and the file extension.
pub open spec fn decorated(s: Seq<char>) -> Seq<char> {
    route_prefix() + s + file_suffix()
}

/// The text without the route segment at its start and without the file
/// extension at its end, where it has them.
pub open spec fn undecorated(s: Seq<char>) -> Seq<char> {
    let t = if route_prefix().is_prefix_of(s) {
        s.skip(route_prefix().len() as int)
    } else {
        s
    };
    if file_suffix().is_suffix_of(t) {
        t.take(t.len() - file_suffix().len())
    } else {
        t
    }
}

/// The face whose canonical name is exactly `s`, if there is one.
pub open spec fn named(s: Seq<char>) -> Option<SmileType> {
    if exists|k: SmileType| k.name_spec() == s {
        Some(choose|k: SmileType| k.name_spec() == s)
    } else {
        None
    }
}

/// The face that a text names, once its decoration is taken off.
pub open spec fn parse_spec(s: Seq<char>) -> Option<SmileType> {
    named(undecorated(s))
}

/// A character that a canonical name may hold.
pub open spec fn is_name_char(c: char) -> bool {
    ('a' <= c && c <= 'z') || c == '_'
}

/// Tells whether the characters of `a` from `from` up to `to` are those of `b`.
fn chars_equal(a: &str, from: usize, to: usize, b: &str) -> (r: bool)
    requires
        from <= to <= a@.len(),
    ensures
        r == (a@.subrange(from as int, to as int) == b@),
{
    let m: usize = b.unicode_len();
    if to - from != m {
        return false;
    }
    let mut j: usize = 0;
    while j < m
        invariant
            j <= m,
            m == b@.len(),
            from + m == to,
            to <= a@.len(),
            forall|i: int| 0 <= i < j ==> a@[from + i] == b@[i],
        decreases m - j,
    {
        if a.get_char(from + j) != b.get_char(j) {
            assert(a@.subrange(from as int, to as int)[j as int] != b@[j as int]);
            return false;
        }
        j += 1;
    }
    assert(a@.subrange(from as int, to as int) =~= b@);
    true
}

impl SmileType {
    /// Reads a canonical name. Only the sixteen names are accepted, letter
    /// for letter.
    pub fn from_name(s: &str) -> (r: Result<SmileType, UnknownIdentifier>)
        ensures
            r == (match named(s@) {
                Some(k) => Ok::<SmileType, UnknownIdentifier>(k),
                None => Err(UnknownIdentifier),
            }),
    {
        let len: usize = s.unicode_len();
        proof {
            lemma_canonical_names();
        }
        if len > 8 {
            return Err(UnknownIdentifier);
        }
        assert(s@.subrange(0, len as int) =~= s@);
        let mut i: usize = 0;
        while i < SmileType::COUNT
            invariant
                i <= SmileType::COUNT,
                len == s@.len(),
                s@.subrange(0, len as int) == s@,
                forall|j: int|
                    0 <= j < i ==> (#[trigger] SmileType::all_spec()[j]).name_spec() != s@,
            decreases SmileType::COUNT - i,
        {
            let k = SmileType::get(i).unwrap();
            if chars_equal(s, 0, len, k.name()) {
                proof {
                    lemma_canonical_names();
                }
                return Ok(k);
            }
            i += 1;
        }
        proof {
            assert forall|k: SmileType| k.name_spec() != s@ by {
                lemma_all_complete(k);
            }
        }
        Err(UnknownIdentifier)
    }

    /// Reads a name that may be wrapped as `/json/<name>.json`: the route
    /// segment at the start and the file extension at the end are taken off
    /// where they stand, and what is left must be a canonical name.
    pub fn from_str(s: &str) -> (r: Result<SmileType, UnknownIdentifier>)
        ensures
            r == (match parse_spec(s@) {
                Some(k) => Ok::<SmileType, UnknownIdentifier>(k),
                None => Err(UnknownIdentifier),
            }),
    {
        proof {
            reveal_strlit("/json/");
            reveal_strlit(".json");
        }
        let n: usize = s.unicode_len();
        let start: usize = if n >= 6 && chars_equal(s, 0, 6, "/json/") {
            6
        } else {
            0
        };
        let end: usize = if n - start >= 5 && chars_equal(s, n - 5, n, ".json") {
            n - 5
        } else {
            n
        };
        let core = s.substring_char(start, end);
        proof {
            let t = s@.skip(start as int);
            assert(t.len() == n - start);
            if t.len() >= 5 {
                assert(t.subrange(t.len() - 5, t.len() as int) =~= s@.subrange(n - 5, n as int));
            }
            assert(core@ =~= undecorated(s@));
        }
        SmileType::from_name(core)
    }
}

/// A text made of name characters only carries no decoration.
pub proof fn lemma_plain_text_is_undecorated(s: Seq<char>)
    requires
        forall|i: int| 0 <= i < s.len() ==> is_name_char(#[trigger] s[i]),
    ensures
        undecorated(s) == s,
{
    reveal_strlit("/json/");
    reveal_strlit(".json");
    if route_prefix().is_prefix_of(s) {
        assert(s.subrange(0, 6)[0] == s[0]);
        assert(!is_name_char(route_prefix()[0]));
    }
    if file_suffix().is_suffix_of(s) {
        assert(s.subrange(s.len() - 5, s.len() as int)[0] == s[s.len() - 5]);
        assert(!is_name_char(file_suffix()[0]));
    }
}

/// Reading the canonical name of a face gives that face.
pub proof fn lemma_name_round_trip(kind: SmileType)
    ensures
        named(kind.name_spec()) == Some(kind),
        parse_spec(kind.name_spec()) == Some(kind),
{
    lemma_canonical_names();
    lemma_plain_text_is_undecorated(kind.name_spec());
}

/// Taking the decoration off a decorated text gives the text back, so a
/// decorated text names what the text itself names exactly.
pub proof fn lemma_decoration_comes_off(s: Seq<char>)
    ensures
        undecorated(decorated(s)) == s,
        parse_spec(decorated(s)) == named(s),
{
    reveal_strlit("/json/");
    reveal_strlit(".json");
    let d = decorated(s);
    assert(d.subrange(0, 6) =~= route_prefix());
    let t = d.skip(6);
    assert(t =~= s + file_suffix());
    assert(t.subrange(t.len() - 5, t.len() as int) =~= file_suffix());
    assert(t.take(t.len() - 5) =~= s);
}

/// A canonical name reads the same with and without its decoration.
pub proof fn lemma_parse_ignores_decoration(kind: SmileType)
    ensures
        parse_spec(decorated(kind.name_spec())) == parse_spec(kind.name_spec()),
        parse_spec(decorated(kind.name_spec())) == Some(kind),
{
    lemma_decoration_comes_off(kind.name_spec());
    lemma_name_round_trip(kind);
}

/// The empty text names no face.
pub proof fn lemma_rejects_empty()
    ensures
        parse_spec(Seq::<char>::empty()) == None::<SmileType>,
{
    lemma_canonical_names();
    reveal_strlit("/json/");
    reveal_strlit(".json");
    assert(undecorated(Seq::<char>::empty()) =~= Seq::<char>::empty());
}

/// A text that holds any character other than lower-case letters, the
/// underscore, the slash and the full stop names no face: no upper-case
/// spelling does, and no name with white space around or inside it.
pub proof fn lemma_rejects_foreign_char(s: Seq<char>, at: int)
    requires
        0 <= at < s.len(),
        !is_name_char(s[at]),
        s[at] != '/',
        s[at] != '.',
    ensures
        parse_spec(s) == None::<SmileType>,
{
    reveal_strlit("/json/");
    reveal_strlit(".json");
    let n: int = s.len() as int;
    let start: int = if route_prefix().is_prefix_of(s) {
        6
    } else {
        0
    };
    let t = s.skip(start);
    let end: int = if file_suffix().is_suffix_of(t) {
        n - 5
    } else {
        n
    };
    let u = undecorated(s);
    assert(u =~= s.subrange(start, end));
    if start == 6 {
        assert(forall|i: int| 0 <= i < 6 ==> s.subrange(0, 6)[i] == s[i]);
        assert(forall|i: int| 0 <= i < 6 ==> s[i] == #[trigger] route_prefix()[i]);
        assert(at >= 6);
    }
    if end == n - 5 {
        let tail = t.subrange(t.len() - 5, t.len() as int);
        assert(forall|i: int| 0 <= i < 5 ==> tail[i] == s[n - 5 + i]);
        assert(forall|i: int| 0 <= i < 5 ==> s[n - 5 + i] == #[trigger] file_suffix()[i]);
        if at >= n - 5 {
            assert(s[n - 5 + (at - (n - 5))] == file_suffix()[at - (n - 5)]);
        }
        assert(at < n - 5);
    }
    assert(u[at - start] == s[at]);
    assert forall|k: SmileType| k.name_spec() != u by {
        lemma_canonical_names();
        if k.name_spec() == u {
            assert(is_name_char(k.name_spec()[at - start]));
        }
    }
}

/// A text that names a face is, once its decoration is off, a canonical
/// name: two to eight lower-case letters and underscores.
pub proof fn lemma_accepted_text(s: Seq<char>)
    requires
        parse_spec(s) is Some,
    ensures
        undecorated(s) == parse_spec(s).unwrap().name_spec(),
        2 <= undecorated(s).len() <= 8,
        forall|i: int| 0 <= i < undecorated(s).len() ==> is_name_char(#[trigger] undecorated(s)[i]),
{
    lemma_canonical_names();
}

/// Every face stands in the declaration order, at its own position.
pub proof fn lemma_all_complete(kind: SmileType)
    ensures
        0 <= kind.index_spec() < SmileType::all_spec().len() == 16,
        SmileType::all_spec()[kind.index_spec()] == kind,
{
}

/// The canonical names: two to eight characters each, lower-case letters
/// and underscores only, and no two faces share one.
pub proof fn lemma_canonical_names()
    ensures
        forall|k: SmileType| 2 <= (#[trigger] k.name_spec()).len() <= 8,
        forall|k: SmileType, i: int|
            0 <= i < k.name_spec().len() ==> is_name_char(#[trigger] k.name_spec()[i]),
        forall|k: SmileType, l: SmileType| k.name_spec() == l.name_spec() ==> k == l,
{
    reveal_strlit("grin");
    reveal_strlit("angry");
    reveal_strlit("flush");
    reveal_strlit("he");
    reveal_strlit("mad");
    reveal_strlit("plead");
    reveal_strlit("sad");
    reveal_strlit("sg");
    reveal_strlit("shock");
    reveal_strlit("sl_smile");
    reveal_strlit("sleep");
    reveal_strlit("smiley");
    reveal_strlit("tong");
    reveal_strlit("unamus");
    reveal_strlit("wink");
    reveal_strlit("zany");
    assert forall|k: SmileType, l: SmileType| k.name_spec() == l.name_spec() implies k == l by {
        let a = k.name_spec();
        let b = l.name_spec();
        assert(a.len() == b.len());
        assert(a[0] == b[0]);
        assert(a[1] == b[1]);
    }
}

} // verus!
