use vstd::prelude::*;

verus! {

#[verifier::external_type_specification]
#[verifier::external_body]
pub struct ExVrchatOscError(vrchat_osc::Error);

/// An OSCQuery type tag, as VRChat reports it for a parameter. The element types of an
/// array tag are not kept: no rule here reads them.
#[derive(Clone, Copy, Debug, PartialEq, Eq, Structural)]
pub enum OscQueryType {
    Int32,
    Float32,
    OscString,
    OscBlob,
    Int64,
    Timetag,
    Double,
    Symbol,
    Char,
    RgbaColor,
    Midi,
    True,
    False,
    Nil,
    Infinitum,
    Array,
}

/// A JSON number as the JSON library holds it: an unsigned integer, a negative integer,
/// or a floating-point number given by its IEEE 754 bits.
#[derive(Clone, Copy, Debug, PartialEq, Eq, Structural)]
pub enum JsonNumber {
    PosInt(u64),
    NegInt(i64),
    Float(u64),
}

/// A JSON request body, as far as the parameter encoding reads it.
#[derive(Debug)]
pub enum RequestValue {
    Null,
    Bool(bool),
    Number(JsonNumber),
    String(String),
    Array,
    Object,
}

/// The OSC argument that a request body becomes. A number sent to a float parameter is
/// handed on as the JSON number: turning it into a finite 32-bit float is left to the
/// caller, which answers `InvalidValue("a finite number")` where that fails.
#[derive(Debug)]
pub enum EncodedArgument {
    Int(i32),
    FloatFrom(JsonNumber),
    String(String),
    Bool(bool),
}

/// Why a parameter could not be sent to VRChat.
#[derive(Debug)]
pub enum SendError {
    Query(vrchat_osc::Error),
    Send(vrchat_osc::Error),
    NotFound,
    UnsupportedType,
    InvalidValue(&'static str),
}

/// The JSON value as a 64-bit signed integer, where it is one.
pub open spec fn json_as_i64(value: RequestValue) -> Option<int> {
    match value {
        RequestValue::Number(JsonNumber::PosInt(n)) => if n <= i64::MAX {
            Some(n as int)
        } else {
            None
        },
        RequestValue::Number(JsonNumber::NegInt(n)) => Some(n as int),
        _ => None,
    }
}

/// What a request body becomes for a parameter of the given single type (`None` when the
/// parameter has no type tag or more than one type): an argument, or the error.
pub open spec fn encoding(parameter_type: Option<OscQueryType>, value: RequestValue) -> Result<
    EncodedArgument,
    SendError,
> {
    match parameter_type {
        Some(OscQueryType::Int32) => match json_as_i64(value) {
            Some(n) => if i32::MIN <= n <= i32::MAX {
                Ok(EncodedArgument::Int(n as i32))
            } else {
                Err(SendError::InvalidValue("a 32-bit integer"))
            },
            None => Err(SendError::InvalidValue("a 32-bit integer")),
        },
        Some(OscQueryType::Float32) => match value {
            RequestValue::Number(n) => Ok(EncodedArgument::FloatFrom(n)),
            _ => Err(SendError::InvalidValue("a finite number")),
        },
        Some(OscQueryType::OscString) | Some(OscQueryType::Symbol) => match value {
            RequestValue::String(s) => Ok(EncodedArgument::String(s)),
            _ => Err(SendError::InvalidValue("a string")),
        },
        Some(OscQueryType::True) | Some(OscQueryType::False) => match value {
            RequestValue::Bool(b) => Ok(EncodedArgument::Bool(b)),
            _ => Err(SendError::InvalidValue("a boolean")),
        },
        _ => Err(SendError::UnsupportedType),
    }
}

/// Encodes a request body as the OSC argument for a parameter of the given type.
pub fn encode_value(parameter_type: Option<OscQueryType>, value: RequestValue) -> (res: Result<
    EncodedArgument,
    SendError,
>)
    ensures
        res == encoding(parameter_type, value),
{
    match parameter_type {
        Some(OscQueryType::Int32) => {
            let as_i64: Option<i64> = match value {
                RequestValue::Number(JsonNumber::PosInt(n)) => if n <= i64::MAX as u64 {
                    Some(n as i64)
                } else {
                    None
                },
                RequestValue::Number(JsonNumber::NegInt(n)) => Some(n),
                _ => None,
            };
            match as_i64 {
                Some(n) => if i32::MIN as i64 <= n && n <= i32::MAX as i64 {
                    Ok(EncodedArgument::Int(n as i32))
                } else {
                    Err(SendError::InvalidValue("a 32-bit integer"))
                },
                None => Err(SendError::InvalidValue("a 32-bit integer")),
            }
        },
        Some(OscQueryType::Float32) => match value {
            RequestValue::Number(n) => Ok(EncodedArgument::FloatFrom(n)),
            _ => Err(SendError::InvalidValue("a finite number")),
        },
        Some(OscQueryType::OscString) | Some(OscQueryType::Symbol) => match value {
            RequestValue::String(s) => Ok(EncodedArgument::String(s)),
            _ => Err(SendError::InvalidValue("a string")),
        },
        Some(OscQueryType::True) | Some(OscQueryType::False) => match value {
            RequestValue::Bool(b) => Ok(EncodedArgument::Bool(b)),
            _ => Err(SendError::InvalidValue("a boolean")),
        },
        _ => Err(SendError::UnsupportedType),
    }
}

/// The JSON shape of a parameter's current value: a single value stands alone, any other
/// number of values forms an array.
pub enum ValueSelection<V> {
    Single(V),
    All(Vec<V>),
}

/// Chooses how a parameter's values are shown: none when it has no value, the value
/// itself when it has exactly one, all of them otherwise.
pub fn select_value<V>(values: Option<Vec<V>>) -> (res: Option<ValueSelection<V>>)
    ensures
        values is None ==> res is None,
        values is Some && values->0@.len() == 1 ==> (res matches Some(ValueSelection::Single(v))
            && v == values->0@[0]),
        values is Some && values->0@.len() != 1 ==> (res matches Some(ValueSelection::All(all))
            && all@ == values->0@),
{
    match values {
        None => None,
        Some(mut all) => {
            if all.len() == 1 {
                match all.pop() {
                    Some(v) => Some(ValueSelection::Single(v)),
                    None => None,
                }
            } else {
                Some(ValueSelection::All(all))
            }
        },
    }
}

/// The text with every leading and trailing '/' removed.
pub open spec fn trim_slashes(s: Seq<char>) -> Seq<char>
    decreases s.len(),
{
    if s.len() > 0 && s[0] == '/' {
        trim_slashes(s.drop_first())
    } else if s.len() > 0 && s.last() == '/' {
        trim_slashes(s.drop_last())
    } else {
        s
    }
}

/// The pieces of the text between its '/' characters, empty pieces included; text
/// without '/' is one piece.
pub open spec fn split_slashes(s: Seq<char>) -> Seq<Seq<char>>
    decreases s.len(),
{
    if s.len() == 0 {
        seq![Seq::<char>::empty()]
    } else {
        let rest = split_slashes(s.drop_first());
        if s[0] == '/' {
            seq![Seq::<char>::empty()] + rest
        } else {
            rest.update(0, seq![s[0]] + rest[0])
        }
    }
}

/// The names of the nodes on the way from the root of the parameter tree to a
/// parameter: the address without its outer slashes, cut at each inner one.
pub open spec fn parameter_path(address: Seq<char>) -> Seq<Seq<char>> {
    split_slashes(trim_slashes(address))
}

/// The text holds no '/'.
pub open spec fn has_no_slash(s: Seq<char>) -> bool {
    forall|i: int| 0 <= i < s.len() ==> s[i] != '/'
}

proof fn lemma_split_not_empty(s: Seq<char>)
    ensures
        split_slashes(s).len() >= 1,
    decreases s.len(),
{
    if s.len() > 0 {
        lemma_split_not_empty(s.drop_first());
    }
}

proof fn lemma_split_prefix(a: Seq<char>, b: Seq<char>)
    requires
        has_no_slash(a),
    ensures
        split_slashes(a + b) == split_slashes(b).update(0, a + split_slashes(b)[0]),
    decreases a.len(),
{
    lemma_split_not_empty(b);
    if a.len() == 0 {
        assert(a + b =~= b);
        assert(a + split_slashes(b)[0] =~= split_slashes(b)[0]);
        assert(split_slashes(b).update(0, split_slashes(b)[0]) =~= split_slashes(b));
    } else {
        let a1 = a.drop_first();
        assert((a + b).drop_first() =~= a1 + b);
        lemma_split_prefix(a1, b);
        assert((a + b)[0] == a[0]);
        let sb = split_slashes(b);
        assert(seq![a[0]] + (a1 + sb[0]) =~= a + sb[0]);
        assert(sb.update(0, a1 + sb[0]).update(0, seq![a[0]] + (a1 + sb[0])) =~= sb.update(
            0,
            a + sb[0],
        ));
    }
}

proof fn lemma_split_at_slash(a: Seq<char>, b: Seq<char>)
    requires
        has_no_slash(a),
    ensures
        split_slashes(a + seq!['/'] + b) == seq![a] + split_slashes(b),
{
    let sb = seq!['/'] + b;
    assert(a + seq!['/'] + b =~= a + sb);
    lemma_split_prefix(a, sb);
    assert(sb.drop_first() =~= b);
    let rest = split_slashes(sb);
    assert(rest == seq![Seq::<char>::empty()] + split_slashes(b));
    assert(a + rest[0] =~= a);
    assert(rest.update(0, a) =~= seq![a] + split_slashes(b));
}

proof fn lemma_split_whole(a: Seq<char>)
    requires
        has_no_slash(a),
    ensures
        split_slashes(a) == seq![a],
{
    lemma_split_prefix(a, Seq::<char>::empty());
    assert(a + Seq::<char>::empty() =~= a);
    assert(split_slashes(Seq::<char>::empty()).update(0, a + Seq::<char>::empty()) =~= seq![a]);
}

/// Cuts a parameter address into the names of the nodes on its path, as
/// `trim_matches('/')` followed by `split('/')` does.
pub fn parameter_path_segments(address: &str) -> (segments: Vec<String>)
    ensures
        segments@.map_values(|segment: String| segment@) == parameter_path(address@),
{
    let n = address.unicode_len();
    let mut start: usize = 0;
    proof {
        assert(address@.subrange(0, n as int) =~= address@);
    }
    while start < n && address.get_char(start) == '/'
        invariant
            n == address@.len(),
            start <= n,
            trim_slashes(address@) == trim_slashes(address@.subrange(start as int, n as int)),
        decreases n - start,
    {
        proof {
            let t = address@.subrange(start as int, n as int);
            assert(t.drop_first() =~= address@.subrange(start + 1, n as int));
        }
        start = start + 1;
    }
    let mut end: usize = n;
    while end > start && address.get_char(end - 1) == '/'
        invariant
            n == address@.len(),
            start <= end <= n,
            start < n ==> address@[start as int] != '/',
            trim_slashes(address@) == trim_slashes(address@.subrange(start as int, end as int)),
        decreases end - start,
    {
        proof {
            let t = address@.subrange(start as int, end as int);
            assert(t[0] == address@[start as int]);
            assert(t.drop_last() =~= address@.subrange(start as int, end - 1));
        }
        end = end - 1;
    }
    let ghost trimmed = address@.subrange(start as int, end as int);
    proof {
        if trimmed.len() > 0 {
            assert(trimmed[0] == address@[start as int]);
            assert(trimmed.last() == address@[end - 1]);
        }
        assert(trim_slashes(trimmed) == trimmed);
    }
    let mut segments: Vec<String> = Vec::new();
    let mut segment_start: usize = start;
    let mut i: usize = start;
    while i < end
        invariant
            n == address@.len(),
            start <= segment_start <= i <= end <= n,
            trimmed == address@.subrange(start as int, end as int),
            trim_slashes(address@) == trimmed,
            has_no_slash(address@.subrange(segment_start as int, i as int)),
            split_slashes(trimmed) == segments@.map_values(|segment: String| segment@)
                + split_slashes(address@.subrange(segment_start as int, end as int)),
        decreases end - i,
    {
        if address.get_char(i) == '/' {
            let piece = address.substring_char(segment_start, i);
            proof {
                let a = address@.subrange(segment_start as int, i as int);
                let b = address@.subrange(i + 1, end as int);
                assert(address@.subrange(segment_start as int, end as int) =~= a + seq!['/'] + b);
                lemma_split_at_slash(a, b);
            }
            let ghost before = segments@.map_values(|segment: String| segment@);
            segments.push(String::from_str(piece));
            proof {
                assert(segments@.map_values(|segment: String| segment@) =~= before.push(
                    piece@,
                ));
                assert(before.push(piece@) + split_slashes(address@.subrange(i + 1, end as int))
                    =~= before + (seq![piece@] + split_slashes(
                    address@.subrange(i + 1, end as int),
                )));
                assert(address@.subrange(i + 1, i + 1) =~= Seq::<char>::empty());
            }
            segment_start = i + 1;
        } else {
            proof {
                let grown = address@.subrange(segment_start as int, i + 1);
                let known = address@.subrange(segment_start as int, i as int);
                assert forall|k: int| 0 <= k < grown.len() implies #[trigger] grown[k] != '/' by {
                    if k < known.len() {
                        assert(grown[k] == known[k]);
                    }
                }
            }
        }
        i = i + 1;
    }
    let last = address.substring_char(segment_start, end);
    proof {
        lemma_split_whole(last@);
    }
    let ghost before = segments@.map_values(|segment: String| segment@);
    segments.push(String::from_str(last));
    proof {
        assert(segments@.map_values(|segment: String| segment@) =~= before.push(last@));
        assert(before + seq![last@] =~= before.push(last@));
    }
    segments
}

proof fn lemma_trailing_slash_dropped(s: Seq<char>)
    ensures
        trim_slashes(s + seq!['/']) == trim_slashes(s),
    decreases s.len(),
{
    let t = s + seq!['/'];
    if s.len() == 0 {
        assert(t.drop_first() =~= Seq::<char>::empty());
        assert(trim_slashes(t) == trim_slashes(t.drop_first()));
    } else if s[0] == '/' {
        assert(t.drop_first() =~= s.drop_first() + seq!['/']);
        lemma_trailing_slash_dropped(s.drop_first());
    } else {
        assert(t[0] == s[0]);
        assert(t.drop_last() =~= s);
    }
}

/// Slashes around an address do not change the node it names: "/usercamera/Pose/",
/// "/usercamera/Pose" and "usercamera/Pose" name the same node.
pub proof fn law_outer_slashes_do_not_matter(address: Seq<char>)
    ensures
        parameter_path(seq!['/'] + address) == parameter_path(address),
        parameter_path(address + seq!['/']) == parameter_path(address),
{
    let leading = seq!['/'] + address;
    assert(leading.drop_first() =~= address);
    assert(trim_slashes(leading) == trim_slashes(address));
    lemma_trailing_slash_dropped(address);
}


/// A request body is sent as the argument it stands for, in the parameter's type:
/// a JSON boolean is sent as that very boolean to a parameter tagged true or false (the
/// tag is the parameter's current value, not what the body asks for); a string as that
/// string to a string or symbol parameter; a number as that number to a float parameter;
/// an integer within 32 bits as that integer to an integer parameter, and any other body
/// there is refused as not a 32-bit integer. A parameter of any other type, or of no
/// single type, refuses every body as unsupported.
pub proof fn law_bodies_keep_their_value(parameter_type: Option<OscQueryType>, value: RequestValue)
    ensures
        forall|b: bool|
            (parameter_type == Some(OscQueryType::True) || parameter_type == Some(
                OscQueryType::False,
            )) && value == RequestValue::Bool(b) ==> encoding(parameter_type, value) == Ok::<
                EncodedArgument,
                SendError,
            >(EncodedArgument::Bool(b)),
        (parameter_type == Some(OscQueryType::True) || parameter_type == Some(OscQueryType::False))
            && !(value is Bool) ==> encoding(parameter_type, value) == Err::<
            EncodedArgument,
            SendError,
        >(SendError::InvalidValue("a boolean")),
        forall|text: String|
            (parameter_type == Some(OscQueryType::OscString) || parameter_type == Some(
                OscQueryType::Symbol,
            )) && value == RequestValue::String(text) ==> encoding(parameter_type, value) == Ok::<
                EncodedArgument,
                SendError,
            >(EncodedArgument::String(text)),
        forall|n: JsonNumber|
            parameter_type == Some(OscQueryType::Float32) && value == RequestValue::Number(n)
                ==> encoding(parameter_type, value) == Ok::<EncodedArgument, SendError>(
                EncodedArgument::FloatFrom(n),
            ),
        forall|n: i64|
            parameter_type == Some(OscQueryType::Int32) && value == RequestValue::Number(
                JsonNumber::NegInt(n),
            ) && i32::MIN <= n <= i32::MAX ==> encoding(parameter_type, value) == Ok::<
                EncodedArgument,
                SendError,
            >(EncodedArgument::Int(n as i32)),
        forall|n: u64|
            parameter_type == Some(OscQueryType::Int32) && value == RequestValue::Number(
                JsonNumber::PosInt(n),
            ) && n <= i32::MAX ==> encoding(parameter_type, value) == Ok::<
                EncodedArgument,
                SendError,
            >(EncodedArgument::Int(n as i32)),
        parameter_type == Some(OscQueryType::Int32) && !(exists|n: u64|
            value == RequestValue::Number(JsonNumber::PosInt(n)) && n <= i32::MAX) && !(exists|
            n: i64,
        | value == RequestValue::Number(JsonNumber::NegInt(n)) && i32::MIN <= n <= i32::MAX) ==> encoding(
            parameter_type,
            value,
        ) == Err::<EncodedArgument, SendError>(SendError::InvalidValue("a 32-bit integer")),
        !(parameter_type == Some(OscQueryType::Int32) || parameter_type == Some(
            OscQueryType::Float32,
        ) || parameter_type == Some(OscQueryType::OscString) || parameter_type == Some(
            OscQueryType::Symbol,
        ) || parameter_type == Some(OscQueryType::True) || parameter_type == Some(
            OscQueryType::False,
        )) ==> encoding(parameter_type, value) == Err::<EncodedArgument, SendError>(
            SendError::UnsupportedType,
        ),
{
    if parameter_type == Some(OscQueryType::Int32) {
        match value {
            RequestValue::Number(JsonNumber::PosInt(n)) => {
                if n <= i32::MAX {
                    assert(exists|m: u64|
                        value == RequestValue::Number(JsonNumber::PosInt(m)) && m <= i32::MAX);
                }
            },
            RequestValue::Number(JsonNumber::NegInt(n)) => {
                if i32::MIN <= n <= i32::MAX {
                    assert(exists|m: i64|
                        value == RequestValue::Number(JsonNumber::NegInt(m)) && i32::MIN <= m
                            <= i32::MAX);
                }
            },
            _ => {},
        }
    }
}

} // verus!
