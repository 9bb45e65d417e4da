use vstd::prelude::*;

use crate::error::{Error, NumericField, StringError};
use crate::league::Lockfile;
use crate::text::{
    is_usize_numeral, join_spec, numeral_value, parse_usize, split_fields, split_spec,
};

verus! {

/// The character that separates the fields of a lockfile.
pub const FIELD_SEPARATOR: char = ':';

/// The number of fields that a lockfile names.
pub const FIELD_COUNT: usize = 5;

impl Lockfile {
    /// The descriptor holds the first five of `fields`, in order, the numeric
    /// ones read as non-negative integers (digits, optionally after one `+`).
    pub open spec fn has_fields(&self, fields: Seq<Seq<char>>) -> bool {
        &&& fields.len() >= 5
        &&& self.process@ == fields[0]
        &&& self.pid as nat == numeral_value(fields[1])
        &&& self.port as nat == numeral_value(fields[2])
        &&& self.password@ == fields[3]
        &&& self.protocol@ == fields[4]
    }

    /// `r` is what reading lockfile text `text` gives: too few fields first,
    /// then a bad process id, then a bad port, else the descriptor.
    pub open spec fn read_outcome(r: Result<Lockfile, Error>, text: Seq<char>) -> bool {
        let f = split_spec(text, FIELD_SEPARATOR);
        if f.len() < 5 {
            r == Err::<Lockfile, Error>(Error::MalformedDescriptor)
        } else if !is_usize_numeral(f[1]) {
            r == Err::<Lockfile, Error>(Error::NumericFieldInvalid(NumericField::ProcessId))
        } else if !is_usize_numeral(f[2]) {
            r == Err::<Lockfile, Error>(Error::NumericFieldInvalid(NumericField::Port))
        } else {
            r is Ok && r->Ok_0.has_fields(f)
        }
    }

    /// Reads the text of a lockfile: `process:pid:port:password:protocol`,
    /// split at every `:` without trimming; fields past the fifth are ignored.
    pub fn parse(contents: &str) -> (r: Result<Lockfile, Error>)
        ensures
            Lockfile::read_outcome(r, contents@),
    {
        let v = split_fields(contents, FIELD_SEPARATOR);
        let ghost f = split_spec(contents@, FIELD_SEPARATOR);
        proof {
            assert(v@.len() == f.len());
            assert forall|k: int| 0 <= k < v@.len() implies v@[k]@ == f[k] by {
                assert(v@.map_values(|s: String| s@)[k] == f[k]);
            }
        }
        if v.len() < FIELD_COUNT {
            return Err(Error::MalformedDescriptor);
        }
        let pid = match parse_usize(v[1].as_str()) {
            Some(n) => n,
            None => {
                return Err(Error::NumericFieldInvalid(NumericField::ProcessId));
            },
        };
        let port = match parse_usize(v[2].as_str()) {
            Some(n) => n,
            None => {
                return Err(Error::NumericFieldInvalid(NumericField::Port));
            },
        };
        Ok(
            Lockfile {
                process: v[0].clone(),
                pid,
                port,
                password: v[3].clone(),
                protocol: v[4].clone(),
            },
        )
    }
}

/// Reading lockfile text made of at least five `:`-free fields joined by `:`,
/// whose second and third fields are non-negative integers that fit in a `usize`,
/// gives the descriptor of the first five fields.
pub proof fn lemma_read_joined_fields(fields: Seq<Seq<char>>, r: Result<Lockfile, Error>)
    requires
        fields.len() >= 5,
        forall|k: int| 0 <= k < fields.len() ==> !(#[trigger] fields[k]).contains(FIELD_SEPARATOR),
        is_usize_numeral(fields[1]),
        is_usize_numeral(fields[2]),
        Lockfile::read_outcome(r, join_spec(fields, FIELD_SEPARATOR)),
    ensures
        r is Ok,
        r->Ok_0.has_fields(fields),
{
    crate::text::lemma_split_join(fields, FIELD_SEPARATOR);
}

/// Lockfile text with fewer than five `:`-separated fields is refused as malformed.
pub proof fn lemma_read_too_few_fields(text: Seq<char>, r: Result<Lockfile, Error>)
    requires
        split_spec(text, FIELD_SEPARATOR).len() < 5,
        Lockfile::read_outcome(r, text),
    ensures
        r == Err::<Lockfile, Error>(Error::MalformedDescriptor),
{
}

} // verus!
