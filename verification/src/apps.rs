//! The decoder of the installed-application inventory: fixed-plus-variable
//! records packed into paginated payloads, appended in receipt order.
use vstd::prelude::*;

use vstd::utf8::{decode_utf8, valid_utf8};

use crate::errors::Error;
use crate::reader::{spec_be_u16, Reader};
use crate::text::utf8_to_string;

verus! {

/// One installed application, as one inventory record describes it.
#[derive(Debug, Clone)]
pub struct InstalledApp {
    pub name: String,
    pub hash: Vec<u8>,
    pub hash_code_data: Vec<u8>,
    pub blocks: u16,
    pub flags: u16,
}

/// The mathematical value of an inventory record.
#[verifier::ext_equal]
pub struct InstalledAppV {
    pub name: Seq<char>,
    pub hash: Seq<u8>,
    pub hash_code_data: Seq<u8>,
    pub blocks: u16,
    pub flags: u16,
}

impl View for InstalledApp {
    type V = InstalledAppV;

    open spec fn view(&self) -> InstalledAppV {
        InstalledAppV {
            name: self.name@,
            hash: self.hash@,
            hash_code_data: self.hash_code_data@,
            blocks: self.blocks,
            flags: self.flags,
        }
    }
}

/// The record values of a sequence of installed applications.
pub open spec fn spec_apps_view(s: Seq<InstalledApp>) -> Seq<InstalledAppV> {
    s.map_values(|a: InstalledApp| a@)
}

/// The record list a run of record bytes stands for. Each record is a
/// one-byte total length `L`, a two-byte block count, a two-byte flag word,
/// a 32-byte code-data hash, a 32-byte content hash, a one-byte name length
/// `N` and the `N`-byte UTF-8 name; `L` must equal `N + 70` exactly, and
/// the records consume the whole run.
pub open spec fn spec_parse_records(d: Seq<u8>) -> Result<Seq<InstalledAppV>, Error>
    decreases d.len(),
{
    if d.len() == 0 {
        Ok(Seq::empty())
    } else if d.len() < 70 {
        Err(Error::TruncatedData)
    } else {
        let l = d[0] as int;
        let n = d[69] as int;
        if d.len() < 70 + n {
            Err(Error::TruncatedData)
        } else if l != n + 70 {
            Err(Error::InvalidRecord)
        } else if !valid_utf8(d.subrange(70, 70 + n)) {
            Err(Error::EncodingError)
        } else {
            let rec = InstalledAppV {
                name: decode_utf8(d.subrange(70, 70 + n)),
                hash: d.subrange(37, 69),
                hash_code_data: d.subrange(5, 37),
                blocks: spec_be_u16(d.subrange(1, 3)),
                flags: spec_be_u16(d.subrange(3, 5)),
            };
            match spec_parse_records(d.skip(70 + n)) {
                Ok(rest) => Ok(seq![rec] + rest),
                Err(e) => Err(e),
            }
        }
    }
}

/// Appending one more application keeps the record values pointwise.
proof fn lemma_apps_view_push(s: Seq<InstalledApp>, a: InstalledApp)
    ensures
        spec_apps_view(s.push(a)) =~= spec_apps_view(s).push(a@),
{
    assert(spec_apps_view(s.push(a)) =~= spec_apps_view(s).push(a@));
}

/// Prepend already-decoded records to the outcome of decoding the rest.
pub open spec fn spec_combine(
    acc: Seq<InstalledAppV>,
    r: Result<Seq<InstalledAppV>, Error>,
) -> Result<Seq<InstalledAppV>, Error> {
    match r {
        Ok(rest) => Ok(acc + rest),
        Err(e) => Err(e),
    }
}

/// Decode one inventory page: the format marker byte, then a run of
/// records filling the page, appended to `apps` in order. Any short read
/// fails with `TruncatedData`, a length mismatch with `InvalidRecord`, and
/// an invalid name text with `EncodingError`.
pub fn parse_apps_page(data: &Vec<u8>, apps: &mut Vec<InstalledApp>) -> (r: Result<(), Error>)
    requires
        data@.len() > 0,
        data@[0] == 0x01,
    ensures
        r matches Ok(_) ==> {
            &&& spec_parse_records(data@.skip(1)) matches Ok(recs)
                && spec_apps_view(final(apps)@) == spec_apps_view(old(apps)@) + recs
        },
        r matches Err(e) ==> spec_parse_records(data@.skip(1)) == Err::<
            Seq<InstalledAppV>,
            Error,
        >(e),
    {
    let ghost d = data@;
    let ghost orig = apps@;
    let mut rd = Reader::new(data);
    let _marker = match rd.read_u8() {
        Ok(v) => v,
        Err(e) => {
            return Err(e);
        },
    };
    let ghost mut acc: Seq<InstalledAppV> = Seq::empty();
    proof {
        assert(spec_combine(acc, spec_parse_records(d.skip(1))) == spec_parse_records(d.skip(1)))
            by {
            if spec_parse_records(d.skip(1)) is Ok {
                assert(acc + spec_parse_records(d.skip(1)).unwrap() =~= spec_parse_records(
                    d.skip(1),
                ).unwrap());
            }
        }
    }
    loop
        invariant
            d == data@,
            orig == old(apps)@,
            rd.wf(),
            rd.bytes() == d,
            1 <= rd.position() <= d.len(),
            spec_apps_view(apps@) == spec_apps_view(orig) + acc,
            spec_combine(acc, spec_parse_records(d.skip(rd.position()))) == spec_parse_records(
                d.skip(1),
            ),
        ensures
            spec_parse_records(d.skip(1)) matches Ok(recs) && spec_apps_view(apps@)
                == spec_apps_view(orig) + recs,
        decreases d.len() - rd.position(),
    {
        let ghost pos = rd.position();
        let ghost tail = d.skip(pos);
        if rd.remaining() == 0 {
            proof {
                assert(tail.len() == 0);
                assert(spec_parse_records(tail) == Ok::<Seq<InstalledAppV>, Error>(Seq::empty()));
                assert(acc + Seq::<InstalledAppV>::empty() =~= acc);
            }
            break;
        }
        proof {
            assert(tail.len() > 0);
        }
        let l = match rd.read_u8() {
            Ok(v) => v,
            Err(e) => {
                proof {
                    assert(spec_parse_records(tail) == Err::<Seq<InstalledAppV>, Error>(e));
                }
                return Err(e);
            },
        };
        let blocks = match rd.read_be_u16() {
            Ok(v) => v,
            Err(e) => {
                proof {
                    assert(tail.len() < 3);
                    assert(spec_parse_records(tail) == Err::<Seq<InstalledAppV>, Error>(e));
                }
                return Err(e);
            },
        };
        let flags = match rd.read_be_u16() {
            Ok(v) => v,
            Err(e) => {
                proof {
                    assert(tail.len() < 5);
                    assert(spec_parse_records(tail) == Err::<Seq<InstalledAppV>, Error>(e));
                }
                return Err(e);
            },
        };
        let hash_code_data = match rd.read_bytes(32) {
            Ok(v) => v,
            Err(e) => {
                proof {
                    assert(tail.len() < 37);
                    assert(spec_parse_records(tail) == Err::<Seq<InstalledAppV>, Error>(e));
                }
                return Err(e);
            },
        };
        let hash = match rd.read_bytes(32) {
            Ok(v) => v,
            Err(e) => {
                proof {
                    assert(tail.len() < 69);
                    assert(spec_parse_records(tail) == Err::<Seq<InstalledAppV>, Error>(e));
                }
                return Err(e);
            },
        };
        let n = match rd.read_u8() {
            Ok(v) => v,
            Err(e) => {
                proof {
                    assert(tail.len() < 70);
                    assert(spec_parse_records(tail) == Err::<Seq<InstalledAppV>, Error>(e));
                }
                return Err(e);
            },
        };
        proof {
            assert(tail[0] == l);
            assert(tail[69] == n);
        }
        let name_bytes = match rd.read_bytes(n as usize) {
            Ok(v) => v,
            Err(e) => {
                proof {
                    assert(tail.len() < 70 + n);
                    assert(spec_parse_records(tail) == Err::<Seq<InstalledAppV>, Error>(e));
                }
                return Err(e);
            },
        };
        if l as usize != n as usize + 70 {
            proof {
                assert(spec_parse_records(tail) == Err::<Seq<InstalledAppV>, Error>(
                    Error::InvalidRecord,
                ));
            }
            return Err(Error::InvalidRecord);
        }
        proof {
            assert(name_bytes@ =~= tail.subrange(70, 70 + n));
        }
        let name = match utf8_to_string(&name_bytes) {
            Some(s) => s,
            None => {
                proof {
                    assert(spec_parse_records(tail) == Err::<Seq<InstalledAppV>, Error>(
                        Error::EncodingError,
                    ));
                }
                return Err(Error::EncodingError);
            },
        };
        let app = InstalledApp { name, hash, hash_code_data, blocks, flags };
        let ghost rec = app@;
        proof {
            assert(app@.hash =~= tail.subrange(37, 69));
            assert(app@.hash_code_data =~= tail.subrange(5, 37));
            assert(tail.subrange(1, 3) =~= d.subrange(pos + 1, pos + 3));
            assert(tail.subrange(3, 5) =~= d.subrange(pos + 3, pos + 5));
            assert(spec_parse_records(tail) == spec_combine(
                seq![rec],
                spec_parse_records(tail.skip(70 + n)),
            ));
            assert(tail.skip(70 + n) =~= d.skip(pos + 70 + n));
        }
        let ghost apps_before = apps@;
        apps.push(app);
        proof {
            lemma_apps_view_push(apps_before, app);
            assert(spec_apps_view(apps_before).push(rec) =~= spec_apps_view(orig) + (acc
                + seq![rec]));
            assert(spec_apps_view(apps@) =~= spec_apps_view(orig) + (acc + seq![rec]));
            let sub = spec_parse_records(d.skip(pos + 70 + n));
            let prev = acc;
            acc = acc + seq![rec];
            if sub is Ok {
                assert(prev + (seq![rec] + sub.unwrap()) =~= acc + sub.unwrap());
            }
        }
    }
    proof {
        let recs = spec_parse_records(d.skip(1)).unwrap();
        assert(spec_apps_view(apps@) == spec_apps_view(orig) + recs);
    }
    Ok(())
}

/// A record whose declared length disagrees with its name length — the
/// declared length must be exactly the name length plus 70 — fails the
/// whole decoding with `InvalidRecord`.
pub proof fn lemma_bad_record_length(d: Seq<u8>)
    requires
        d.len() >= 70,
        d.len() >= 70 + d[69],
        d[0] != d[69] + 70,
    ensures
        spec_parse_records(d) == Err::<Seq<InstalledAppV>, Error>(Error::InvalidRecord),
{
}

/// Splitting a well-formed run of record bytes anywhere on a record
/// boundary does not change the decoded list: decoding two well-formed
/// runs separately and appending gives the decoding of their
/// concatenation.
pub proof fn lemma_records_concat(a: Seq<u8>, b: Seq<u8>)
    requires
        spec_parse_records(a) is Ok,
        spec_parse_records(b) is Ok,
    ensures
        spec_parse_records(a + b) == Ok::<Seq<InstalledAppV>, Error>(
            spec_parse_records(a).unwrap() + spec_parse_records(b).unwrap(),
        ),
    decreases a.len(),
{
    if a.len() == 0 {
        assert(a + b =~= b);
        assert(spec_parse_records(a).unwrap() + spec_parse_records(b).unwrap()
            =~= spec_parse_records(b).unwrap());
    } else {
        let ab = a + b;
        let n = a[69] as int;
        assert(a.len() >= 70 + n);
        assert(ab[0] == a[0] && ab[69] == a[69]);
        assert(ab.subrange(70, 70 + n) =~= a.subrange(70, 70 + n));
        assert(ab.subrange(37, 69) =~= a.subrange(37, 69));
        assert(ab.subrange(5, 37) =~= a.subrange(5, 37));
        assert(ab.subrange(1, 3) =~= a.subrange(1, 3));
        assert(ab.subrange(3, 5) =~= a.subrange(3, 5));
        assert(ab.skip(70 + n) =~= a.skip(70 + n) + b);
        lemma_records_concat(a.skip(70 + n), b);
        let rec = InstalledAppV {
            name: decode_utf8(a.subrange(70, 70 + n)),
            hash: a.subrange(37, 69),
            hash_code_data: a.subrange(5, 37),
            blocks: spec_be_u16(a.subrange(1, 3)),
            flags: spec_be_u16(a.subrange(3, 5)),
        };
        let resta = spec_parse_records(a.skip(70 + n)).unwrap();
        let restb = spec_parse_records(b).unwrap();
        assert(seq![rec] + (resta + restb) =~= (seq![rec] + resta) + restb);
    }
}

} // verus!
