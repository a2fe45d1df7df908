//! Reference names: review pushes (`refs/for/...`, `refs/drafts/...` with `%` options),
//! namespaced and upstream references, and namespace names of repository paths.
use vstd::prelude::*;
use crate::error::JoshError;
use crate::text::{
    after_first, before_first, chars_of, concat2, concat3, concat4, join, join_strings, replace_all,
    replace_str, slice_string, split_char, split_on, split_once, starts_with, str_starts_with,
    trim_char, trim_matches_char,
};

verus! {

/// The branch a review push targets: `refs/for` or `refs/drafts` at the start is
/// replaced by `refs/heads`.
pub open spec fn review_target(push_to: Seq<char>) -> Seq<char> {
    if starts_with(push_to, "refs/for"@) {
        "refs/heads"@ + push_to.skip("refs/for"@.len() as int)
    } else if starts_with(push_to, "refs/drafts"@) {
        "refs/heads"@ + push_to.skip("refs/drafts"@.len() as int)
    } else {
        push_to
    }
}

/// The push options of a pushed reference name: the `,`-separated items after its
/// first `%`, none when it has no `%`.
pub open spec fn push_options(refname: Seq<char>) -> Seq<Seq<char>> {
    match after_first(refname, "%"@) {
        Some(o) => split_on(o, ','),
        None => Seq::empty(),
    }
}

/// `refs/namespaces/<ns>/<refname>`.
pub open spec fn namespaced(ns: Seq<char>, refname: Seq<char>) -> Seq<char> {
    "refs/namespaces/"@ + ns + "/"@ + refname
}

/// `refs/josh/upstream/<ns>/<refname>`.
pub open spec fn upstream(ns: Seq<char>, refname: Seq<char>) -> Seq<char> {
    "refs/josh/upstream/"@ + ns + "/"@ + refname
}

/// The namespace of a repository path: the path without leading and trailing `/`,
/// each `/` in it written as `/refs/namespaces/`.
pub open spec fn namespace_of(path: Seq<char>) -> Seq<char> {
    replace_all(trim_char(path, '/'), "/"@, "/refs/namespaces/"@)
}

/// Options that josh acts on itself start with `josh-`.
pub open spec fn is_josh_option(o: Seq<char>) -> bool {
    starts_with(o, "josh-"@)
}

/// The options handed on to the upstream push: those that are not josh's own.
pub open spec fn forwarded_options(options: Seq<Seq<char>>) -> Seq<Seq<char>> {
    options.filter(|o: Seq<char>| !is_josh_option(o))
}

/// The reference name pushed upstream: the target name, then `%` and the forwarded
/// options joined by `,` when there are any.
pub open spec fn upstream_push_ref(push_to: Seq<char>, options: Seq<Seq<char>>) -> Seq<char> {
    let kept = forwarded_options(options);
    if kept.len() != 0 {
        push_to + "%"@ + join(kept, ","@)
    } else {
        push_to
    }
}

/// Splits a pushed reference name into the branch it targets, the name it was pushed
/// to, and its push options.
///
/// `refs/for/master%josh-merge,wip` targets `refs/heads/master`, was pushed to
/// `refs/for/master` and has the options `josh-merge` and `wip`.
pub fn baseref_and_options(refname: &str) -> (r: Result<(String, String, Vec<String>), JoshError>)
    ensures
        r matches Ok((baseref, push_to, options)) && push_to@ == before_first(refname@, "%"@)
            && baseref@ == review_target(push_to@) && options@.map_values(|o: String| o@)
            == push_options(refname@),
{
    let (push_to, rest) = split_once(refname, "%");
    let options = match rest {
        Some(o) => split_char(o.as_str(), ','),
        None => {
            let v: Vec<String> = Vec::new();
            assert(v@.map_values(|o: String| o@) =~= Seq::<Seq<char>>::empty());
            v
        },
    };
    let mut baseref = push_to.clone();
    proof {
        reveal_strlit("refs/for");
        reveal_strlit("refs/drafts");
        reveal_strlit("refs/heads");
    }
    if str_starts_with(baseref.as_str(), "refs/for") {
        let chars = chars_of(baseref.as_str());
        let tail = slice_string(chars.as_slice(), 8, chars.len());
        assert(tail@ =~= push_to@.skip(8));
        baseref = concat2("refs/heads", tail.as_str());
        assert(baseref@[5] == 'h');
        assert(!starts_with(baseref@, "refs/drafts"@)) by {
            if starts_with(baseref@, "refs/drafts"@) {
                assert(baseref@.subrange(0, 11)[5] == 'd');
            }
        }
    }
    if str_starts_with(baseref.as_str(), "refs/drafts") {
        let chars = chars_of(baseref.as_str());
        let tail = slice_string(chars.as_slice(), 11, chars.len());
        assert(tail@ =~= push_to@.skip(11));
        baseref = concat2("refs/heads", tail.as_str());
    }
    Ok((baseref, push_to, options))
}

/// `refs/namespaces/<ns>/<refname>`.
pub fn namespaced_ref(ns: &str, refname: &str) -> (r: String)
    ensures
        r@ == namespaced(ns@, refname@),
{
    concat4("refs/namespaces/", ns, "/", refname)
}

/// `refs/josh/upstream/<ns>/<refname>`.
pub fn upstream_ref(ns: &str, refname: &str) -> (r: String)
    ensures
        r@ == upstream(ns@, refname@),
{
    concat4("refs/josh/upstream/", ns, "/", refname)
}

/// The namespace of a repository path (`to_ns`): `/a/b/` gives
/// `a/refs/namespaces/b`.
pub fn to_ns(path: &str) -> (r: String)
    ensures
        r@ == namespace_of(path@),
{
    let trimmed = trim_matches_char(path, '/');
    proof {
        reveal_strlit("/");
    }
    replace_str(trimmed.as_str(), "/", "/refs/namespaces/")
}

/// Whether the options ask for a merge with the upstream branch (`josh-merge`).
pub fn wants_merge(options: &Vec<String>) -> (r: bool)
    ensures
        r == options@.map_values(|o: String| o@).contains("josh-merge"@),
{
    let target = String::from_str("josh-merge");
    let ghost views = options@.map_values(|o: String| o@);
    let mut i: usize = 0;
    while i < options.len()
        invariant
            i <= options.len(),
            target@ == "josh-merge"@,
            views == options@.map_values(|o: String| o@),
            forall|k: int| 0 <= k < i ==> views[k] != "josh-merge"@,
        decreases options.len() - i,
    {
        if options[i] == target {
            assert(views[i as int] == "josh-merge"@);
            return true;
        }
        i += 1;
    }
    false
}

/// The options that are not josh's own, in order (`retain(|o| !o.starts_with("josh-"))`).
pub fn forward_options(options: &Vec<String>) -> (r: Vec<String>)
    ensures
        r@.map_values(|o: String| o@) == forwarded_options(options@.map_values(|o: String| o@)),
{
    let ghost views = options@.map_values(|o: String| o@);
    let mut kept: Vec<String> = Vec::new();
    let mut i: usize = 0;
    proof {
        reveal_with_fuel(Seq::filter, 1);
    }
    assert(kept@.map_values(|o: String| o@) =~= forwarded_options(views.take(0)));
    while i < options.len()
        invariant
            i <= options.len(),
            views == options@.map_values(|o: String| o@),
            kept@.map_values(|o: String| o@) == forwarded_options(views.take(i as int)),
        decreases options.len() - i,
    {
        assert(views.take(i + 1).drop_last() =~= views.take(i as int));
        assert(views.take(i + 1).last() == views[i as int]);
        let josh_own = str_starts_with(options[i].as_str(), "josh-");
        assert(views[i as int] == options@[i as int]@);
        proof {
            reveal_with_fuel(Seq::filter, 1);
        }
        assert(forwarded_options(views.take(i + 1)) == if !is_josh_option(views[i as int]) {
            forwarded_options(views.take(i as int)).push(views[i as int])
        } else {
            forwarded_options(views.take(i as int))
        });
        if !josh_own {
            let ghost before = kept@.map_values(|o: String| o@);
            kept.push(options[i].clone());
            assert(kept@.map_values(|o: String| o@) =~= before.push(views[i as int]));
        }
        i += 1;
    }
    assert(views.take(options.len() as int) =~= views);
    kept
}

/// The reference name pushed upstream for a review push.
pub fn push_ref_with_options(push_to: &str, options: &Vec<String>) -> (r: String)
    ensures
        r@ == upstream_push_ref(push_to@, options@.map_values(|o: String| o@)),
{
    let kept = forward_options(options);
    if kept.len() != 0 {
        let joined = join_strings(&kept, ",");
        concat3(push_to, "%", joined.as_str())
    } else {
        String::from_str(push_to)
    }
}

/// A review push to `refs/for/<branch>` or `refs/drafts/<branch>`, with or without
/// `%` options, targets `refs/heads/<branch>` and is pushed upstream to
/// `refs/for/<branch>` (or `refs/drafts/<branch>`); its options are the `,`-separated
/// items after the `%`.
pub proof fn law_review_push_targets_head(branch: Seq<char>, options: Seq<char>, drafts: bool)
    requires
        forall|i: int| 0 <= i < branch.len() ==> branch[i] != '%',
    ensures
        ({
            let prefix = if drafts {
                "refs/drafts/"@
            } else {
                "refs/for/"@
            };
            &&& before_first(prefix + branch, "%"@) == prefix + branch
            &&& review_target(prefix + branch) == "refs/heads/"@ + branch
            &&& push_options(prefix + branch) == Seq::<Seq<char>>::empty()
            &&& before_first(prefix + branch + "%"@ + options, "%"@) == prefix + branch
            &&& push_options(prefix + branch + "%"@ + options) == split_on(options, ',')
        }),
{
    reveal_strlit("refs/drafts/");
    reveal_strlit("refs/for/");
    reveal_strlit("refs/for");
    reveal_strlit("refs/drafts");
    reveal_strlit("refs/heads");
    reveal_strlit("refs/heads/");
    reveal_strlit("%");
    let prefix = if drafts {
        "refs/drafts/"@
    } else {
        "refs/for/"@
    };
    let plain = prefix + branch;
    assert forall|j: int| 0 <= j < plain.len() implies plain[j] != '%' by {
        if j >= prefix.len() {
            assert(plain[j] == branch[j - prefix.len()]);
        }
    }
    assert("%"@ =~= seq!['%']);
    crate::text::lemma_find_char_none(plain, '%');
    let full = plain + "%"@ + options;
    assert forall|j: int| 0 <= j < plain.len() implies full[j] != '%' by {
        assert(full[j] == plain[j]);
    }
    crate::text::lemma_find_char_at(full, '%', plain.len() as int);
    assert(full.take(plain.len() as int) =~= plain);
    assert(full.skip(plain.len() as int + 1) =~= options);
    if drafts {
        assert(!starts_with(plain, "refs/for"@)) by {
            if starts_with(plain, "refs/for"@) {
                assert(plain.subrange(0, 8)[5] == "refs/for"@[5]);
            }
        }
        assert(starts_with(plain, "refs/drafts"@)) by {
            assert(plain.subrange(0, 11) =~= "refs/drafts"@);
        }
        assert("refs/heads"@ + plain.skip(11) =~= "refs/heads/"@ + branch);
    } else {
        assert(starts_with(plain, "refs/for"@)) by {
            assert(plain.subrange(0, 8) =~= "refs/for"@);
        }
        assert("refs/heads"@ + plain.skip(8) =~= "refs/heads/"@ + branch);
    }
}

/// The options handed on upstream are exactly the pushed options that do not start
/// with `josh-`, in their order.
pub proof fn law_forwarded_options(options: Seq<Seq<char>>)
    ensures
        forall|i: int|
            0 <= i < forwarded_options(options).len() ==> !is_josh_option(
                #[trigger] forwarded_options(options)[i],
            ) && options.contains(forwarded_options(options)[i]),
        forall|i: int|
            0 <= i < options.len() && !is_josh_option(#[trigger] options[i])
                ==> forwarded_options(options).contains(options[i]),
{
    let pred = |o: Seq<char>| !is_josh_option(o);
    let kept = forwarded_options(options);
    assert forall|i: int| 0 <= i < kept.len() implies !is_josh_option(#[trigger] kept[i])
        && options.contains(kept[i]) by {
        options.lemma_filter_pred(pred, i);
        assert(kept.contains(kept[i]));
        options.lemma_filter_contains_rev(pred, kept[i]);
    }
    assert forall|i: int|
        0 <= i < options.len() && !is_josh_option(#[trigger] options[i]) implies kept.contains(
        options[i],
    ) by {
        options.lemma_filter_contains(pred, i);
    }
}

/// Filtering keeps a sequence whole when every item passes.
pub proof fn lemma_filter_all(s: Seq<Seq<char>>)
    requires
        forall|i: int| 0 <= i < s.len() ==> !is_josh_option(#[trigger] s[i]),
    ensures
        forwarded_options(s) == s,
    decreases s.len(),
{
    reveal_with_fuel(Seq::filter, 1);
    if s.len() > 0 {
        lemma_filter_all(s.drop_last());
        assert(s.drop_last().push(s.last()) =~= s);
    }
}

/// The pushed reference carries every option that is not josh's own: with any such
/// option it is `<push_to>%<options joined by ,>`, and when no option is josh's own,
/// all the options are handed on as they came; with none it is `<push_to>` alone.
pub proof fn law_non_josh_options_are_forwarded(push_to: Seq<char>, options: Seq<Seq<char>>)
    ensures
        forwarded_options(options).len() != 0 ==> upstream_push_ref(push_to, options) == push_to
            + "%"@ + join(forwarded_options(options), ","@),
        forwarded_options(options).len() == 0 ==> upstream_push_ref(push_to, options) == push_to,
        (forall|i: int| 0 <= i < options.len() ==> !is_josh_option(#[trigger] options[i]))
            && options.len() != 0 ==> upstream_push_ref(push_to, options) == push_to + "%"@ + join(
            options,
            ","@,
        ),
{
    if forall|i: int| 0 <= i < options.len() ==> !is_josh_option(#[trigger] options[i]) {
        lemma_filter_all(options);
    }
}

} // verus!
