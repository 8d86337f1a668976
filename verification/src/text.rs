use vstd::prelude::*;

verus! {

/// The views of a sequence of strings.
pub open spec fn string_views(parts: Seq<String>) -> Seq<Seq<char>> {
    parts.map_values(|s: String| s@)
}

/// The parts joined into one text, one line break between two neighbours.
pub open spec fn join_lines(parts: Seq<Seq<char>>) -> Seq<char>
    decreases parts.len(),
{
    if parts.len() == 0 {
        Seq::empty()
    } else if parts.len() == 1 {
        parts[0]
    } else {
        join_lines(parts.drop_last()) + seq!['\n'] + parts.last()
    }
}

/// Viewing strings keeps their number and order: element `i` of the views is
/// the view of string `i`.
pub proof fn string_views_elementwise(parts: Seq<String>)
    ensures
        string_views(parts).len() == parts.len(),
        forall|i: int| 0 <= i < parts.len() ==> #[trigger] string_views(parts)[i] == parts[i]@,
{
}

/// Joining no parts gives the empty text, and joining one part gives that part.
pub proof fn join_lines_base(x: Seq<char>)
    ensures
        join_lines(Seq::<Seq<char>>::empty()) == Seq::<char>::empty(),
        join_lines(seq![x]) == x,
{
}

/// Appending a part to a non-empty list appends a line break and then the
/// whole part to the joined text, whatever the number of parts: no part is
/// ever left out or cut.
pub proof fn join_lines_push(parts: Seq<Seq<char>>, x: Seq<char>)
    requires
        parts.len() > 0,
    ensures
        join_lines(parts.push(x)) == join_lines(parts) + seq!['\n'] + x,
{
    assert(parts.push(x).drop_last() =~= parts);
}

/// The joined text is as long as all parts together plus one line break
/// between each two neighbours.
pub proof fn join_lines_length(parts: Seq<Seq<char>>)
    requires
        parts.len() > 0,
    ensures
        join_lines(parts).len() == total_length(parts) + parts.len() - 1,
    decreases parts.len(),
{
    if parts.len() > 1 {
        join_lines_length(parts.drop_last());
    } else {
        assert(total_length(parts.drop_last()) == 0);
    }
}

/// The number of characters in all parts together.
pub open spec fn total_length(parts: Seq<Seq<char>>) -> int
    decreases parts.len(),
{
    if parts.len() == 0 {
        0
    } else {
        total_length(parts.drop_last()) + parts.last().len()
    }
}

/// Joins `parts` with `"\n"` between neighbours.
pub fn join_with_newlines(parts: &Vec<String>) -> (r: String)
    ensures
        r@ == join_lines(string_views(parts@)),
{
    let ghost views = string_views(parts@);
    let mut res = String::new();
    let mut i: usize = 0;
    while i < parts.len()
        invariant
            i <= parts.len(),
            views == string_views(parts@),
            res@ == join_lines(views.take(i as int)),
        decreases parts.len() - i,
    {
        proof {
            reveal_strlit("\n");
        }
        if i > 0 {
            res.append("\n");
        }
        res.append(parts[i].as_str());
        assert(views.take(i + 1).drop_last() =~= views.take(i as int));
        i = i + 1;
    }
    assert(views.take(parts.len() as int) =~= views);
    res
}

} // verus!
