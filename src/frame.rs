//! Wire frames: one line of text of the shape `<kind>!<body>`.
use vstd::prelude::*;

verus! {

/// The character that parts a frame's kind tag from its body.
pub const SEPARATOR: char = '!';

/// Number of separators in `s`.
pub open spec fn sep_count(s: Seq<char>) -> nat
    decreases s.len(),
{
    if s.len() == 0 {
        0
    } else {
        sep_count(s.drop_last()) + if s.last() == SEPARATOR {
            1nat
        } else {
            0nat
        }
    }
}

/// `s` holds no separator.
pub open spec fn sep_free(s: Seq<char>) -> bool {
    forall|i: int| 0 <= i < s.len() ==> s[i] != SEPARATOR
}

/// The line that carries `body` under the tag `kind`.
pub open spec fn frame_of(kind: Seq<char>, body: Seq<char>) -> Seq<char> {
    kind + seq![SEPARATOR] + body
}

/// Why a line is not a well-formed frame, or not the one that was expected.
pub enum ProtocolError {
    /// The line holds no separator.
    MissingSeparator,
    /// The line holds two separators or more.
    ExtraSeparator,
    /// The line is well formed but carries another kind tag.
    KindMismatch { expected: String, found: String },
    /// The reply is well formed but breaks the rules of the session.
    UnexpectedReply,
}

impl ProtocolError {
    /// A sentence that says what went wrong.
    pub fn message(&self) -> (r: String)
        ensures
            r@ == match self {
                ProtocolError::MissingSeparator => "frame has no '!' separator"@,
                ProtocolError::ExtraSeparator => "frame has more than one '!'"@,
                ProtocolError::KindMismatch { expected, found } => "expected response kind "@
                    + expected@ + ", got "@ + found@,
                ProtocolError::UnexpectedReply => "reply breaks the session's rules"@,
            },
    {
        match self {
            ProtocolError::MissingSeparator => String::from_str("frame has no '!' separator"),
            ProtocolError::ExtraSeparator => String::from_str("frame has more than one '!'"),
            ProtocolError::KindMismatch { expected, found } => {
                let mut m = String::from_str("expected response kind ");
                m.append(expected.as_str());
                m.append(", got ");
                m.append(found.as_str());
                m
            },
            ProtocolError::UnexpectedReply => String::from_str("reply breaks the session's rules"),
        }
    }
}

/// Relies on `str::chars` collected into a `Vec`: the characters of `s` in order.
#[verifier::external_body]
pub(crate) fn chars_of(s: &str) -> (r: Vec<char>)
    ensures
        r@ == s@,
{
    s.chars().collect()
}

/// Separators of a concatenation add up.
pub proof fn lemma_sep_count_concat(a: Seq<char>, b: Seq<char>)
    ensures
        sep_count(a + b) == sep_count(a) + sep_count(b),
    decreases b.len(),
{
    if b.len() == 0 {
        assert(a + b =~= a);
    } else {
        lemma_sep_count_concat(a, b.drop_last());
        assert((a + b).drop_last() =~= a + b.drop_last());
    }
}

/// A text is separator-free exactly when it counts no separator.
pub proof fn lemma_sep_free_count(s: Seq<char>)
    ensures
        sep_free(s) <==> sep_count(s) == 0,
    decreases s.len(),
{
    if s.len() > 0 {
        lemma_sep_free_count(s.drop_last());
        if sep_free(s) {
            assert(sep_free(s.drop_last()));
        } else {
            let i = choose|i: int| 0 <= i < s.len() && s[i] == SEPARATOR;
            if i < s.len() - 1 {
                assert(s.drop_last()[i] == SEPARATOR);
            }
        }
        if sep_free(s.drop_last()) && s.last() != SEPARATOR {
            assert forall|i: int| 0 <= i < s.len() implies s[i] != SEPARATOR by {
                if i < s.len() - 1 {
                    assert(s.drop_last()[i] == s[i]);
                }
            }
        }
    }
}

proof fn lemma_sep_count_prefix(s: Seq<char>, i: int)
    requires
        0 <= i < s.len(),
    ensures
        sep_count(s.take(i + 1)) == sep_count(s.take(i)) + if s[i] == SEPARATOR {
            1nat
        } else {
            0nat
        },
{
    assert(s.take(i + 1).drop_last() =~= s.take(i));
}

/// The frame that carries `body` under `kind`.
pub fn encode_frame(kind: &str, body: &str) -> (r: String)
    ensures
        r@ == frame_of(kind@, body@),
{
    let mut line = String::from_str(kind);
    line.append("!");
    proof {
        reveal_strlit("!");
    }
    line.append(body);
    line
}

/// Parts a line into its kind tag and its body.
pub fn split_frame(line: &str) -> (r: Result<(String, String), ProtocolError>)
    ensures
        match r {
            Ok((kind, body)) => {
                &&& line@ == frame_of(kind@, body@)
                &&& sep_free(kind@)
                &&& sep_free(body@)
            },
            Err(ProtocolError::MissingSeparator) => sep_count(line@) == 0,
            Err(ProtocolError::ExtraSeparator) => sep_count(line@) >= 2,
            Err(ProtocolError::KindMismatch { .. }) => false,
            Err(ProtocolError::UnexpectedReply) => false,
        },
        r is Ok <==> sep_count(line@) == 1,
{
    let chars = chars_of(line);
    let n = chars.len();
    let mut count: usize = 0;
    let mut first: usize = 0;
    let mut i: usize = 0;
    while i < n
        invariant
            chars@ == line@,
            n == chars@.len(),
            0 <= i <= n,
            count <= i,
            count == sep_count(line@.take(i as int)),
            count == 0 ==> sep_free(line@.take(i as int)),
            count >= 1 ==> first < i && line@[first as int] == SEPARATOR && sep_free(
                line@.take(first as int),
            ),
            count == 1 ==> sep_free(line@.subrange(first + 1, i as int)),
        decreases n - i,
    {
        proof {
            lemma_sep_count_prefix(line@, i as int);
        }
        if chars[i] == SEPARATOR {
            if count == 0 {
                first = i;
                assert(line@.take(first as int) =~= line@.take(i as int));
            }
            count = count + 1;
        } else {
            proof {
                if count == 0 {
                    assert forall|j: int| 0 <= j < i + 1 implies #[trigger] line@.take(i + 1)[j]
                        != SEPARATOR by {
                        if j < i {
                            assert(line@.take(i as int)[j] == line@[j]);
                        }
                    }
                }
                if count == 1 {
                    assert forall|j: int| 0 <= j < i - first implies #[trigger] line@.subrange(
                        first + 1,
                        i + 1,
                    )[j] != SEPARATOR by {
                        if j < i - first - 1 {
                            assert(line@.subrange(first + 1, i as int)[j] == line@[first + 1 + j]);
                        }
                    }
                }
            }
        }
        i = i + 1;
    }
    assert(line@.take(n as int) =~= line@);
    if count == 0 {
        Err(ProtocolError::MissingSeparator)
    } else if count >= 2 {
        Err(ProtocolError::ExtraSeparator)
    } else {
        let kind = line.substring_char(0, first);
        let body = line.substring_char(first + 1, n);
        assert(line@ =~= frame_of(kind@, body@));
        assert(kind@ =~= line@.take(first as int));
        assert(body@ =~= line@.subrange(first + 1, n as int));
        (Ok((String::from_str(kind), String::from_str(body))))
    }
}

/// Reads the body of a frame that must carry the kind tag `expected`.
pub fn decode_frame(line: &str, expected: &str) -> (r: Result<String, ProtocolError>)
    ensures
        match r {
            Ok(body) => sep_count(line@) == 1 && line@ == frame_of(expected@, body@) && sep_free(
                body@,
            ),
            Err(ProtocolError::MissingSeparator) => sep_count(line@) == 0,
            Err(ProtocolError::ExtraSeparator) => sep_count(line@) >= 2,
            Err(ProtocolError::KindMismatch { expected: e, found }) => {
                &&& sep_count(line@) == 1
                &&& e@ == expected@
                &&& found@ != expected@
                &&& sep_free(found@)
                &&& exists|body: Seq<char>| sep_free(body) && line@ == frame_of(found@, body)
            },
            Err(ProtocolError::UnexpectedReply) => false,
        },
        r is Ok <==> (sep_count(line@) == 1 && exists|body: Seq<char>|
            sep_free(body) && line@ == frame_of(expected@, body)),
{
    match split_frame(line) {
        Err(e) => Err(e),
        Ok((kind, body)) => {
            proof {
                lemma_frame_count(kind@, body@);
            }
            let wanted = String::from_str(expected);
            if kind == wanted {
                Ok(body)
            } else {
                proof {
                    assert forall|b: Seq<char>| sep_free(b) implies line@ != frame_of(
                        expected@,
                        b,
                    ) by {
                        if line@ == frame_of(expected@, b) {
                            if sep_free(expected@) {
                                lemma_frame_unique(kind@, body@, expected@, b);
                            } else {
                                lemma_sep_free_count(expected@);
                                lemma_sep_free_count(b);
                                lemma_sep_count_concat(expected@, seq![SEPARATOR]);
                                lemma_sep_count_concat(expected@ + seq![SEPARATOR], b);
                                lemma_one_sep();
                            }
                        }
                    }
                }
                Err(ProtocolError::KindMismatch { expected: wanted, found: kind })
            }
        },
    }
}

/// A frame built from two separator-free parts holds exactly one separator.
pub proof fn lemma_frame_count(kind: Seq<char>, body: Seq<char>)
    requires
        sep_free(kind),
        sep_free(body),
    ensures
        sep_count(frame_of(kind, body)) == 1,
{
    lemma_sep_free_count(kind);
    lemma_sep_free_count(body);
    lemma_sep_count_concat(kind, seq![SEPARATOR]);
    lemma_sep_count_concat(kind + seq![SEPARATOR], body);
    lemma_one_sep();
}

proof fn lemma_one_sep()
    ensures
        sep_count(seq![SEPARATOR]) == 1,
{
    let s = seq![SEPARATOR];
    assert(s.drop_last() =~= Seq::<char>::empty());
    assert(sep_count(Seq::<char>::empty()) == 0);
    assert(s.last() == SEPARATOR);
}

/// Two separator-free parts are told apart by the frame they make.
pub proof fn lemma_frame_unique(k1: Seq<char>, b1: Seq<char>, k2: Seq<char>, b2: Seq<char>)
    requires
        sep_free(k1),
        sep_free(b1),
        sep_free(k2),
        sep_free(b2),
        frame_of(k1, b1) == frame_of(k2, b2),
    ensures
        k1 == k2,
        b1 == b2,
{
    let f = frame_of(k1, b1);
    if k1.len() < k2.len() {
        assert(f[k1.len() as int] == SEPARATOR);
        assert(f[k1.len() as int] == k2[k1.len() as int]);
    } else if k2.len() < k1.len() {
        assert(f[k2.len() as int] == SEPARATOR);
        assert(f[k2.len() as int] == k1[k2.len() as int]);
    } else {
        assert(k1 =~= f.take(k1.len() as int));
        assert(k2 =~= f.take(k2.len() as int));
        assert(b1 =~= f.skip(k1.len() as int + 1));
        assert(b2 =~= f.skip(k2.len() as int + 1));
    }
}

/// Framing round trip: a frame made of a separator-free kind tag and body holds exactly one
/// separator, and the only way to read it back as a kind tag and a body gives the two parts
/// it was made of.
pub proof fn lemma_frame_round_trip(kind: Seq<char>, body: Seq<char>)
    requires
        sep_free(kind),
        sep_free(body),
    ensures
        sep_count(frame_of(kind, body)) == 1,
        forall|k: Seq<char>, b: Seq<char>|
            sep_free(k) && sep_free(b) && #[trigger] frame_of(k, b) == frame_of(kind, body) ==> k
                == kind && b == body,
{
    lemma_frame_count(kind, body);
    assert forall|k: Seq<char>, b: Seq<char>|
        sep_free(k) && sep_free(b) && #[trigger] frame_of(k, b) == frame_of(
            kind,
            body,
        ) implies k == kind && b == body by {
        lemma_frame_unique(k, b, kind, body);
    }
}

} // verus!
