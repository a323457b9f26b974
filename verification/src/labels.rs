//! Class labels: one name per line of a text resource, indexed by the
//! class identifier a detection carries.

use vstd::prelude::*;

verus! {

/// The byte that separates two class names.
pub const LINE_FEED: u8 = 10;

/// The lines of `s`, split on line feeds: always one more line than
/// there are line feeds, so empty input gives one empty line and a
/// trailing line feed gives a trailing empty line.
pub open spec fn lines_of(s: Seq<u8>) -> Seq<Seq<u8>>
    decreases s.len(),
{
    if s.len() == 0 {
        seq![Seq::empty()]
    } else {
        let pre = lines_of(s.drop_last());
        if s.last() == LINE_FEED {
            pre.push(Seq::empty())
        } else {
            pre.update(pre.len() - 1, pre.last().push(s.last()))
        }
    }
}

/// Splits the raw bytes of the class-label resource into one name per
/// line, in file order; a name's position is its class identifier.
pub fn parse_labels(data: &Vec<u8>) -> (r: Vec<Vec<u8>>)
    ensures
        r@.map_values(|line: Vec<u8>| line@) == lines_of(data@),
        r@.len() >= 1,
{
    let mut r: Vec<Vec<u8>> = Vec::new();
    let mut cur: Vec<u8> = Vec::new();
    let mut i: usize = 0;
    proof {
        assert(data@.take(0) =~= Seq::<u8>::empty());
        assert(r@.map_values(|line: Vec<u8>| line@).push(cur@) =~= lines_of(data@.take(0)));
    }
    while i < data.len()
        invariant
            i <= data@.len(),
            r@.map_values(|line: Vec<u8>| line@).push(cur@) == lines_of(data@.take(i as int)),
        decreases data@.len() - i,
    {
        let ghost prefix = data@.take(i as int);
        let ghost mapped = r@.map_values(|line: Vec<u8>| line@);
        proof {
            assert(data@.take(i as int + 1).drop_last() =~= prefix);
            assert(data@.take(i as int + 1).last() == data@[i as int]);
        }
        let byte = data[i];
        if byte == LINE_FEED {
            r.push(cur);
            cur = Vec::new();
            proof {
                assert(r@.map_values(|line: Vec<u8>| line@) =~= mapped.push(
                    lines_of(prefix).last(),
                ));
                assert(r@.map_values(|line: Vec<u8>| line@).push(cur@) =~= lines_of(
                    data@.take(i as int + 1),
                ));
            }
        } else {
            cur.push(byte);
            proof {
                assert(r@.map_values(|line: Vec<u8>| line@).push(cur@) =~= lines_of(
                    data@.take(i as int + 1),
                ));
            }
        }
        i += 1;
    }
    proof {
        assert(data@.take(data@.len() as int) =~= data@);
    }
    r.push(cur);
    proof {
        assert(r@.map_values(|line: Vec<u8>| line@) =~= lines_of(data@));
    }
    r
}

} // verus!
