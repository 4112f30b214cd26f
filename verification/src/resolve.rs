//! Type Descriptor Resolver: a pure function of category and case name
//! yielding the target type's textual grammar.

use vstd::prelude::*;

use crate::strutil::{contains_sub, spec_split, split_char, str_contains, str_eq};
use crate::types::{ErrKind, ErrView, GenError, SszType};

verus! {

/// The element type written by an element-type tag: `bool` stays boolean,
/// `uint256` is the wide-integer type, any other tag of at least four
/// characters drops its first four and gains a `u` prefix.
pub open spec fn spec_element_type(s: Seq<char>) -> Option<Seq<char>> {
    if s == "bool"@ {
        Some("bool"@)
    } else if s == "uint256"@ {
        Some("U256"@)
    } else if s.len() >= 4 {
        Some("u"@ + s.skip(4))
    } else {
        None
    }
}

/// The target type written by a case name under a category, or nothing
/// when the name does not carry the tokens the category requires.
pub open spec fn spec_rust_type(t: SszType, name: Seq<char>) -> Option<Seq<char>> {
    let parts = spec_split(name, '_');
    match t {
        SszType::BasicVector => if parts.len() >= 3 && spec_element_type(parts[1]) is Some {
            Some("Vector::<"@ + spec_element_type(parts[1])->0 + ", "@ + parts[2] + ">"@)
        } else {
            None
        },
        SszType::Bitlist => if parts.len() >= 2 {
            if parts[1] == "no"@ {
                Some("Bitlist::<256>"@)
            } else {
                Some("Bitlist::<"@ + parts[1] + ">"@)
            }
        } else {
            None
        },
        SszType::Bitvector => if parts.len() >= 2 {
            Some("Bitvector::<"@ + parts[1] + ">"@)
        } else {
            None
        },
        SszType::Boolean => Some("bool"@),
        SszType::Container => if parts.len() >= 1 {
            Some(parts[0])
        } else {
            None
        },
        SszType::Uint => if parts.len() >= 2 {
            if contains_sub(parts[1], "256"@) {
                Some("U256"@)
            } else {
                Some("u"@ + parts[1])
            }
        } else {
            None
        },
    }
}

/// Maps an element-type tag to the element type's textual form.
pub fn to_element_type(s: &str) -> (r: Result<String, GenError>)
    ensures
        r is Ok <==> spec_element_type(s@) is Some,
        r is Ok ==> r->Ok_0@ == spec_element_type(s@)->0,
        r is Err ==> r->Err_0@ == (ErrView { kind: ErrKind::BadTypeName, detail: s@ }),
{
    if str_eq(s, "bool") {
        Ok("bool".to_owned())
    } else if str_eq(s, "uint256") {
        Ok("U256".to_owned())
    } else {
        let n = s.unicode_len();
        if n >= 4 {
            let mut t = "u".to_owned();
            t.append(s.substring_char(4, n));
            proof {
                assert(s@.subrange(4, s@.len() as int) =~= s@.skip(4));
            }
            Ok(t)
        } else {
            Err(GenError::new(ErrKind::BadTypeName, s.to_owned()))
        }
    }
}

/// Resolves a category and case name into the target type's textual form.
pub fn to_rust_type(ssz_type: SszType, name: &str) -> (r: Result<String, GenError>)
    ensures
        r is Ok <==> spec_rust_type(ssz_type, name@) is Some,
        r is Ok ==> r->Ok_0@ == spec_rust_type(ssz_type, name@)->0,
        r is Err ==> r->Err_0@ == (ErrView { kind: ErrKind::BadTypeName, detail: name@ }),
{
    let parts = split_char(name, '_');
    let ghost sparts = spec_split(name@, '_');
    match ssz_type {
        SszType::BasicVector => {
            if parts.len() >= 3 {
                match to_element_type(parts[1].as_str()) {
                    Ok(elem) => {
                        let mut t = "Vector::<".to_owned();
                        t.append(elem.as_str());
                        t.append(", ");
                        t.append(parts[2].as_str());
                        t.append(">");
                        proof {
                            assert(t@ =~= "Vector::<"@ + spec_element_type(sparts[1])->0 + ", "@
                                + sparts[2] + ">"@);
                        }
                        Ok(t)
                    },
                    Err(_) => Err(GenError::new(ErrKind::BadTypeName, name.to_owned())),
                }
            } else {
                Err(GenError::new(ErrKind::BadTypeName, name.to_owned()))
            }
        },
        SszType::Bitlist => {
            if parts.len() >= 2 {
                if str_eq(parts[1].as_str(), "no") {
                    Ok("Bitlist::<256>".to_owned())
                } else {
                    let mut t = "Bitlist::<".to_owned();
                    t.append(parts[1].as_str());
                    t.append(">");
                    proof {
                        assert(t@ =~= "Bitlist::<"@ + sparts[1] + ">"@);
                    }
                    Ok(t)
                }
            } else {
                Err(GenError::new(ErrKind::BadTypeName, name.to_owned()))
            }
        },
        SszType::Bitvector => {
            if parts.len() >= 2 {
                let mut t = "Bitvector::<".to_owned();
                t.append(parts[1].as_str());
                t.append(">");
                proof {
                    assert(t@ =~= "Bitvector::<"@ + sparts[1] + ">"@);
                }
                Ok(t)
            } else {
                Err(GenError::new(ErrKind::BadTypeName, name.to_owned()))
            }
        },
        SszType::Boolean => Ok("bool".to_owned()),
        SszType::Container => {
            proof {
                crate::strutil::lemma_split_from_nonempty(name@, '_', 0);
            }
            Ok(parts[0].clone())
        },
        SszType::Uint => {
            if parts.len() >= 2 {
                if str_contains(parts[1].as_str(), "256") {
                    Ok("U256".to_owned())
                } else {
                    let mut t = "u".to_owned();
                    t.append(parts[1].as_str());
                    Ok(t)
                }
            } else {
                Err(GenError::new(ErrKind::BadTypeName, name.to_owned()))
            }
        },
    }
}

} // verus!
