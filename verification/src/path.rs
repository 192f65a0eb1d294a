use vstd::prelude::*;

verus! {

/// The character that separates the components of a path.
pub open spec fn separator() -> char {
    '/'
}

/// Whether `path` is absolute: it begins at the root.
pub open spec fn is_absolute(path: Seq<char>) -> bool {
    path.len() > 0 && path[0] == separator()
}

/// Whether a component pushed onto `path` has to be set off by a separator:
/// the path is not empty and does not already end in one.
pub open spec fn needs_separator(path: Seq<char>) -> bool {
    path.len() > 0 && path.last() != separator()
}

/// `path` with `component` appended as its new last component.
pub open spec fn push_component(path: Seq<char>, component: Seq<char>) -> Seq<char> {
    if needs_separator(path) {
        path.push(separator()) + component
    } else {
        path + component
    }
}

/// `base` with each of `components` appended in order.
pub open spec fn join_path(base: Seq<char>, components: Seq<Seq<char>>) -> Seq<char>
    decreases components.len(),
{
    if components.len() == 0 {
        base
    } else {
        push_component(join_path(base, components.drop_last()), components.last())
    }
}

/// Pushing a first component and then the others is joining them all.
pub proof fn lemma_join_path_first(base: Seq<char>, first: Seq<char>, others: Seq<Seq<char>>)
    ensures
        join_path(base, seq![first] + others) == join_path(push_component(base, first), others),
    decreases others.len(),
{
    let all = seq![first] + others;
    if others.len() == 0 {
        assert(all.drop_last() =~= Seq::<Seq<char>>::empty());
        assert(join_path(base, all.drop_last()) == base);
    } else {
        lemma_join_path_first(base, first, others.drop_last());
        assert(all.drop_last() =~= seq![first] + others.drop_last());
    }
}

/// Whether `path` begins at the root.
pub fn is_absolute_path(path: &str) -> (b: bool)
    ensures
        b == is_absolute(path@),
{
    !path.is_empty() && path.get_char(0) == '/'
}

/// Appends `component` to `path` as its new last component.
pub fn push(path: &mut String, component: &str)
    ensures
        final(path)@ == push_component(old(path)@, component@),
{
    let n: usize = path.as_str().unicode_len();
    if n > 0 && path.as_str().get_char(n - 1) != '/' {
        proof {
            reveal_strlit("/");
            assert("/"@ =~= seq![separator()]);
        }
        path.append("/");
        assert(path@ =~= old(path)@.push(separator()));
    }
    path.append(component);
}

/// `base` with each of `components` appended in order.
pub fn join(base: &str, components: &Vec<String>) -> (r: String)
    ensures
        r@ == join_path(base@, components.deep_view()),
{
    let mut r: String = base.to_string();
    let ghost all = components.deep_view();
    for i in 0..components.len()
        invariant
            all == components.deep_view(),
            r@ == join_path(base@, all.take(i as int)),
    {
        push(&mut r, components[i].as_str());
        proof {
            let upto = all.take(i + 1);
            assert(upto.drop_last() =~= all.take(i as int));
            assert(upto.last() == components[i as int]@);
        }
    }
    proof {
        assert(all.take(components.len() as int) =~= all);
    }
    r
}

} // verus!
