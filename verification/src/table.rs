use vstd::prelude::*;

verus! {

/// A display table handed to the presentation layer: the header labels and
/// the text of each row.
#[derive(Debug)]
pub struct VecTable<'a> {
    pub headers: Vec<&'a str>,
    pub rows: Vec<Vec<String>>,
}

/// A copy of one row's texts.
fn clone_row(row: &Vec<String>) -> (r: Vec<String>)
    ensures
        r@ == row@,
{
    let mut out: Vec<String> = Vec::new();
    let n: usize = row.len();
    let mut i: usize = 0;
    while i < n
        invariant
            i <= n,
            n == row@.len(),
            out@ == row@.subrange(0, i as int),
        decreases n - i,
    {
        out.push(row[i].clone());
        proof {
            assert(out@ =~= row@.subrange(0, i + 1));
        }
        i = i + 1;
    }
    proof {
        assert(row@.subrange(0, n as int) =~= row@);
    }
    out
}

/// Pairs the raw row texts with the given header labels, copying every row.
pub fn raw_table_to_typetable<'a>(raw: &'a Vec<Vec<String>>, headers: Vec<&'a str>) -> (r: VecTable<
    'a,
>)
    ensures
        r.headers == headers,
        r.rows.deep_view() == raw.deep_view(),
{
    let mut rows: Vec<Vec<String>> = Vec::new();
    let n: usize = raw.len();
    let mut i: usize = 0;
    while i < n
        invariant
            i <= n,
            n == raw@.len(),
            rows@.len() == i,
            forall|k: int| 0 <= k < i ==> (#[trigger] rows@[k])@ == raw@[k]@,
        decreases n - i,
    {
        rows.push(clone_row(&raw[i]));
        i = i + 1;
    }
    proof {
        assert(rows.deep_view() =~~= raw.deep_view());
    }
    VecTable { headers, rows }
}

} // verus!
