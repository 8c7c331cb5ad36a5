//! Record header construction.
//!
//! Header configuration is one JSON object, or an array of objects applied
//! in order. Each object entry becomes one header: a string value becomes
//! its UTF-8 bytes, an array of small integers becomes exactly those bytes,
//! a null value becomes a header with no value, and any other shape is an
//! argument error. Duplicates are kept: later entries add, they never
//! overwrite.

use vstd::prelude::*;
use vstd::string::StringSliceAdditionalSpecFns;
use vstd::string::StrSliceExecFns;

use crate::errors::ErrorKind;
use crate::errors::IngestError;

verus! {

/// A number found inside a header byte array: an integer, a number too
/// large or fractional, or not a number at all.
#[derive(Debug)]
pub enum JsonNum {
    Int(i64),
    NotAnInt,
    NotANumber,
}

/// The JSON shape of one header value.
#[derive(Debug)]
pub enum HeaderVal {
    /// A JSON string: the header carries its UTF-8 bytes.
    Str(String),
    /// A JSON array: the header carries one byte per element.
    Arr(Vec<JsonNum>),
    /// JSON null: a header with no value.
    Null,
    /// Any other JSON shape; rejected.
    Other,
}

/// One header object: named values in their natural key order.
#[derive(Debug)]
pub struct HeaderObj {
    pub entries: Vec<(String, HeaderVal)>,
}

/// One element of a headers array; only objects are accepted.
#[derive(Debug)]
pub enum HeadersArrElem {
    Obj(HeaderObj),
    Other,
}

/// The JSON shape of the whole headers option.
#[derive(Debug)]
pub enum HeadersJson {
    Obj(HeaderObj),
    Arr(Vec<HeadersArrElem>),
    Other,
}

/// One header of an outgoing record: a name and an optional byte value.
#[derive(Debug)]
pub struct HeaderEntry {
    pub name: String,
    pub value: Option<Vec<u8>>,
}

impl HeaderEntry {
    /// The mathematical content of a header: its name's characters and its
    /// optional bytes.
    pub open spec fn model(self) -> (Seq<char>, Option<Seq<u8>>) {
        (
            self.name@,
            match self.value {
                Option::Some(v) => Option::Some(v@),
                Option::None => Option::None,
            },
        )
    }

    /// Copies a header entry field by field.
    pub fn duplicate(&self) -> (r: HeaderEntry)
        ensures
            r.model() == self.model(),
    {
        HeaderEntry {
            name: self.name.clone(),
            value: match &self.value {
                Option::Some(v) => Option::Some(clone_bytes(v)),
                Option::None => Option::None,
            },
        }
    }
}

/// The models of a sequence of header entries.
pub open spec fn entries_model(es: Seq<HeaderEntry>) -> Seq<(Seq<char>, Option<Seq<u8>>)> {
    es.map_values(|e: HeaderEntry| e.model())
}

/// The bytes a header byte array stands for; `None` when an element is not
/// an integer between 0 and 255.
pub open spec fn spec_header_bytes(a: Seq<JsonNum>) -> Option<Seq<u8>>
    decreases a.len(),
{
    if a.len() == 0 {
        Option::Some(Seq::empty())
    } else {
        match a[0] {
            JsonNum::Int(i) => if 0 <= i <= 255 {
                match spec_header_bytes(a.skip(1)) {
                    Option::Some(r) => Option::Some(seq![i as u8] + r),
                    Option::None => Option::None,
                }
            } else {
                Option::None
            },
            _ => Option::None,
        }
    }
}

/// The optional byte value one header value stands for; `None` when the
/// shape is rejected.
pub open spec fn spec_header_value(v: HeaderVal) -> Option<Option<Seq<u8>>> {
    match v {
        HeaderVal::Str(s) => Option::Some(Option::Some(vstd::utf8::encode_utf8(s@))),
        HeaderVal::Arr(a) => match spec_header_bytes(a@) {
            Option::Some(b) => Option::Some(Option::Some(b)),
            Option::None => Option::None,
        },
        HeaderVal::Null => Option::Some(Option::None),
        HeaderVal::Other => Option::None,
    }
}

/// The headers one object contributes, in entry order.
pub open spec fn spec_obj_headers(entries: Seq<(String, HeaderVal)>) -> Option<Seq<(Seq<char>,
    Option<Seq<u8>>,
)>>
    decreases entries.len(),
{
    if entries.len() == 0 {
        Option::Some(Seq::empty())
    } else {
        match spec_header_value(entries[0].1) {
            Option::None => Option::None,
            Option::Some(v) => match spec_obj_headers(entries.skip(1)) {
                Option::Some(r) => Option::Some(seq![(entries[0].0@, v)] + r),
                Option::None => Option::None,
            },
        }
    }
}

/// The headers an array of objects contributes, object by object.
pub open spec fn spec_arr_headers(elems: Seq<HeadersArrElem>) -> Option<Seq<(Seq<char>, Option<
    Seq<u8>,
>)>>
    decreases elems.len(),
{
    if elems.len() == 0 {
        Option::Some(Seq::empty())
    } else {
        match elems[0] {
            HeadersArrElem::Obj(o) => match spec_obj_headers(o.entries@) {
                Option::Some(a) => match spec_arr_headers(elems.skip(1)) {
                    Option::Some(b) => Option::Some(a + b),
                    Option::None => Option::None,
                },
                Option::None => Option::None,
            },
            HeadersArrElem::Other => Option::None,
        }
    }
}

/// The headers the whole option stands for; `None` when any rule rejects
/// it.
pub open spec fn spec_build_headers(h: HeadersJson) -> Option<Seq<(Seq<char>, Option<Seq<u8>>)>> {
    match h {
        HeadersJson::Obj(o) => spec_obj_headers(o.entries@),
        HeadersJson::Arr(a) => spec_arr_headers(a@),
        HeadersJson::Other => Option::None,
    }
}

fn clone_bytes(v: &Vec<u8>) -> (r: Vec<u8>)
    ensures
        r@ == v@,
{
    let mut out: Vec<u8> = Vec::new();
    let mut i: usize = 0;
    while i < v.len()
        invariant
            i <= v@.len(),
            out@ == v@.take(i as int),
        decreases v@.len() - i,
    {
        out.push(v[i]);
        proof {
            assert(out@ =~= v@.take(i + 1));
        }
        i = i + 1;
    }
    proof {
        assert(v@.take(v@.len() as int) =~= v@);
    }
    out
}

fn header_bytes(a: &Vec<JsonNum>) -> (r: Result<Vec<u8>, IngestError>)
    ensures
        match r {
            Ok(out) => spec_header_bytes(a@) == Option::Some(out@),
            Err(e) => spec_header_bytes(a@) is None && e.kind == ErrorKind::Argument,
        },
{
    let mut out: Vec<u8> = Vec::new();
    let mut i: usize = 0;
    proof {
        assert(a@.skip(0) =~= a@);
        if spec_header_bytes(a@) is Some {
            assert(out@ + spec_header_bytes(a@).unwrap() =~= spec_header_bytes(a@).unwrap());
        }
    }
    while i < a.len()
        invariant
            i <= a@.len(),
            spec_header_bytes(a@) == match spec_header_bytes(a@.skip(i as int)) {
                Option::Some(r) => Option::Some(out@ + r),
                Option::None => Option::None::<Seq<u8>>,
            },
        decreases a@.len() - i,
    {
        proof {
            assert(a@.skip(i as int).skip(1) =~= a@.skip(i + 1));
        }
        match &a[i] {
            JsonNum::Int(n) => {
                if 0 <= *n && *n <= 255 {
                    out.push(*n as u8);
                    i = i + 1;
                } else {
                    return Err(
                        IngestError::new(
                            ErrorKind::Argument,
                            String::from_str("header byte out of range"),
                        ),
                    );
                }
            },
            JsonNum::NotAnInt => {
                return Err(
                    IngestError::new(
                        ErrorKind::Argument,
                        String::from_str("header byte out of range"),
                    ),
                );
            },
            JsonNum::NotANumber => {
                return Err(
                    IngestError::new(
                        ErrorKind::Argument,
                        String::from_str(
                            "headers value arrays must only contain numbers",
                        ),
                    ),
                );
            },
        }
    }
    proof {
        assert(a@.skip(a@.len() as int) =~= Seq::<JsonNum>::empty());
    }
    Ok(out)
}

fn header_value(v: &HeaderVal) -> (r: Result<Option<Vec<u8>>, IngestError>)
    ensures
        match r {
            Ok(out) => spec_header_value(*v) == Option::Some(
                match out {
                    Option::Some(b) => Option::Some(b@),
                    Option::None => Option::None::<Seq<u8>>,
                },
            ),
            Err(e) => spec_header_value(*v) is None && e.kind == ErrorKind::Argument,
        },
{
    match v {
        HeaderVal::Str(s) => Ok(Option::Some(s.as_str().as_bytes_vec())),
        HeaderVal::Arr(a) => match header_bytes(a) {
            Ok(b) => Ok(Option::Some(b)),
            Err(e) => Err(e),
        },
        HeaderVal::Null => Ok(Option::None),
        HeaderVal::Other => Err(
            IngestError::new(
                ErrorKind::Argument,
                String::from_str("headers must have string, int array or null values"),
            ),
        ),
    }
}

fn obj_headers(o: &HeaderObj, out: &mut Vec<HeaderEntry>) -> (r: Result<(), IngestError>)
    ensures
        match r {
            Ok(_) => spec_obj_headers(o.entries@) is Some && entries_model(final(out)@)
                == entries_model(old(out)@) + spec_obj_headers(o.entries@).unwrap(),
            Err(e) => spec_obj_headers(o.entries@) is None && e.kind == ErrorKind::Argument,
        },
{
    let mut i: usize = 0;
    let ghost base = old(out)@;
    proof {
        assert(o.entries@.skip(0) =~= o.entries@);
        assert(out@.take(base.len() as int) =~= base);
        assert(out@.skip(base.len() as int) =~= Seq::<HeaderEntry>::empty());
        if spec_obj_headers(o.entries@) is Some {
            assert(entries_model(Seq::<HeaderEntry>::empty()) + spec_obj_headers(
                o.entries@,
            ).unwrap() =~= spec_obj_headers(o.entries@).unwrap());
        }
    }
    while i < o.entries.len()
        invariant
            i <= o.entries@.len(),
            base.len() <= out@.len(),
            out@.take(base.len() as int) == base,
            match spec_obj_headers(o.entries@.skip(i as int)) {
                Option::Some(rest) => spec_obj_headers(o.entries@) == Option::Some(
                    entries_model(out@.skip(base.len() as int)) + rest,
                ),
                Option::None => spec_obj_headers(o.entries@) is None,
            },
        decreases o.entries@.len() - i,
    {
        proof {
            assert(o.entries@.skip(i as int).skip(1) =~= o.entries@.skip(i + 1));
        }
        let pair = &o.entries[i];
        let value = match header_value(&pair.1) {
            Ok(v) => v,
            Err(e) => {
                return Err(e);
            },
        };
        let entry = HeaderEntry { name: pair.0.clone(), value };
        proof {
            assert(entry.model() == (o.entries@[i as int].0@, spec_header_value(
                o.entries@[i as int].1,
            ).unwrap()));
        }
        let ghost prev = out@;
        out.push(entry);
        proof {
            assert(out@.take(base.len() as int) =~= base);
            assert(out@.skip(base.len() as int) =~= prev.skip(base.len() as int).push(entry));
            assert(entries_model(prev.skip(base.len() as int).push(entry)) =~= entries_model(
                prev.skip(base.len() as int),
            ) + seq![entry.model()]);
            if spec_obj_headers(o.entries@.skip(i + 1)) is Some {
                assert(entries_model(prev.skip(base.len() as int)) + (seq![entry.model()]
                    + spec_obj_headers(o.entries@.skip(i + 1)).unwrap()) =~= entries_model(
                    out@.skip(base.len() as int),
                ) + spec_obj_headers(o.entries@.skip(i + 1)).unwrap());
            }
        }
        i = i + 1;
    }
    proof {
        assert(o.entries@.skip(o.entries@.len() as int) =~= Seq::<(String, HeaderVal)>::empty());
        assert(entries_model(out@.skip(base.len() as int)) + Seq::<(Seq<char>, Option<
            Seq<u8>,
        >)>::empty() =~= entries_model(out@.skip(base.len() as int)));
        assert(entries_model(out@) =~= entries_model(out@.take(base.len() as int))
            + entries_model(out@.skip(base.len() as int)));
        assert(entries_model(out@.take(base.len() as int)) == entries_model(base));
    }
    Ok(())
}

fn arr_headers(a: &Vec<HeadersArrElem>) -> (r: Result<Vec<HeaderEntry>, IngestError>)
    ensures
        match r {
            Ok(es) => spec_arr_headers(a@) == Option::Some(entries_model(es@)),
            Err(e) => spec_arr_headers(a@) is None && e.kind == ErrorKind::Argument,
        },
{
    let mut out: Vec<HeaderEntry> = Vec::new();
    let mut i: usize = 0;
    proof {
        assert(a@.skip(0) =~= a@);
        if spec_arr_headers(a@) is Some {
            assert(entries_model(out@) + spec_arr_headers(a@).unwrap() =~= spec_arr_headers(
                a@,
            ).unwrap());
        }
    }
    while i < a.len()
        invariant
            i <= a@.len(),
            match spec_arr_headers(a@.skip(i as int)) {
                Option::Some(rest) => spec_arr_headers(a@) == Option::Some(
                    entries_model(out@) + rest,
                ),
                Option::None => spec_arr_headers(a@) is None,
            },
        decreases a@.len() - i,
    {
        proof {
            assert(a@.skip(i as int).skip(1) =~= a@.skip(i + 1));
            assert(a@.skip(i as int)[0] == a@[i as int]);
        }
        match &a[i] {
            HeadersArrElem::Obj(o) => {
                let ghost prev = out@;
                match obj_headers(o, &mut out) {
                    Ok(_) => {
                        proof {
                            if spec_arr_headers(a@.skip(i + 1)) is Some {
                                assert((entries_model(prev) + spec_obj_headers(
                                    o.entries@,
                                ).unwrap()) + spec_arr_headers(a@.skip(i + 1)).unwrap()
                                    =~= entries_model(prev) + (spec_obj_headers(
                                    o.entries@,
                                ).unwrap() + spec_arr_headers(a@.skip(i + 1)).unwrap()));
                            }
                        }
                    },
                    Err(e) => {
                        proof {
                            assert(spec_arr_headers(a@.skip(i as int)) is None);
                        }
                        return Err(e);
                    },
                }
            },
            HeadersArrElem::Other => {
                proof {
                    assert(spec_arr_headers(a@.skip(i as int)) is None);
                }
                return Err(
                    IngestError::new(
                        ErrorKind::Argument,
                        String::from_str("headers array values must be maps"),
                    ),
                );
            },
        }
        i = i + 1;
    }
    proof {
        assert(a@.skip(a@.len() as int) =~= Seq::<HeadersArrElem>::empty());
        assert(entries_model(out@) + Seq::<(Seq<char>, Option<Seq<u8>>)>::empty()
            =~= entries_model(out@));
    }
    Ok(out)
}

/// Builds the ordered header list the configuration stands for, or rejects
/// it with an argument error.
pub fn build_headers(h: &HeadersJson) -> (r: Result<Vec<HeaderEntry>, IngestError>)
    ensures
        match r {
            Ok(es) => spec_build_headers(*h) == Option::Some(entries_model(es@)),
            Err(e) => spec_build_headers(*h) is None && e.kind == ErrorKind::Argument,
        },
{
    match h {
        HeadersJson::Obj(o) => {
            let mut out: Vec<HeaderEntry> = Vec::new();
            match obj_headers(o, &mut out) {
                Ok(_) => {
                    proof {
                        assert(entries_model(Seq::<HeaderEntry>::empty()) + spec_obj_headers(
                            o.entries@,
                        ).unwrap() =~= spec_obj_headers(o.entries@).unwrap());
                    }
                    Ok(out)
                },
                Err(e) => Err(e),
            }
        },
        HeadersJson::Arr(a) => arr_headers(a),
        HeadersJson::Other => Err(
            IngestError::new(
                ErrorKind::Argument,
                String::from_str("headers must be a map or an array"),
            ),
        ),
    }
}

} // verus!
