//! Grouping the matches of a snapshot by competition.
use crate::types::Match;
use vstd::prelude::*;
use vstd::string::StringExecFns;

verus! {

/// The label of the competition a match belongs to: the country's full name,
/// a dash, the competition's name.
pub open spec fn competition_label(m: Match) -> Seq<char> {
    m.comp.country.full_name@ + " - "@ + m.comp.name@
}

/// The labels that occur among `matches`, each once, in the order in which
/// they first occur.
pub open spec fn labels_of(matches: Seq<Match>) -> Seq<Seq<char>>
    decreases matches.len(),
{
    if matches.len() == 0 {
        Seq::empty()
    } else {
        let before = labels_of(matches.drop_last());
        let label = competition_label(matches.last());
        if before.contains(label) {
            before
        } else {
            before.push(label)
        }
    }
}

/// The matches of one competition, in the order in which the snapshot has
/// them.
pub open spec fn members_of(matches: Seq<Match>, label: Seq<char>) -> Seq<Match> {
    matches.filter(|m: Match| competition_label(m) == label)
}

/// Whether `groups` is `matches` grouped by competition: one group for each
/// label, in the order of `labels_of`, holding the matches of that label in
/// the order of `matches`.
pub open spec fn grouped(groups: Seq<(String, Vec<Match>)>, matches: Seq<Match>) -> bool {
    &&& groups.len() == labels_of(matches).len()
    &&& forall|i: int|
        0 <= i < groups.len() ==> {
            &&& (#[trigger] groups[i]).0@ == labels_of(matches)[i]
            &&& groups[i].1@ == members_of(matches, labels_of(matches)[i])
        }
}

/// A match added at the end joins the members of its own label and of no
/// other.
pub proof fn lemma_members_push(matches: Seq<Match>, m: Match, label: Seq<char>)
    ensures
        members_of(matches.push(m), label) == (if competition_label(m) == label {
            members_of(matches, label).push(m)
        } else {
            members_of(matches, label)
        }),
{
    reveal(Seq::filter);
    assert(matches.push(m).drop_last() =~= matches);
}

/// A label that does not occur has no members.
pub proof fn lemma_unlisted_label_empty(matches: Seq<Match>, label: Seq<char>)
    requires
        !labels_of(matches).contains(label),
    ensures
        members_of(matches, label) == Seq::<Match>::empty(),
    decreases matches.len(),
{
    reveal(Seq::filter);
    if matches.len() > 0 {
        let before = labels_of(matches.drop_last());
        let last = competition_label(matches.last());
        if before.contains(last) {
            assert(last != label);
        } else {
            assert(before.push(last)[before.len() as int] == last);
            assert(last != label);
            assert forall|i: int| 0 <= i < before.len() implies before[i] != label by {
                assert(before.push(last)[i] == before[i]);
            }
        }
        lemma_unlisted_label_empty(matches.drop_last(), label);
    }
}

/// No label is listed twice.
pub proof fn lemma_labels_distinct(matches: Seq<Match>)
    ensures
        labels_of(matches).no_duplicates(),
    decreases matches.len(),
{
    if matches.len() > 0 {
        lemma_labels_distinct(matches.drop_last());
    }
}

/// The label of every match is listed.
pub proof fn lemma_labels_cover(matches: Seq<Match>, i: int)
    requires
        0 <= i < matches.len(),
    ensures
        labels_of(matches).contains(competition_label(matches[i])),
    decreases matches.len(),
{
    let before = labels_of(matches.drop_last());
    let last = competition_label(matches.last());
    if i == matches.len() - 1 {
        if !before.contains(last) {
            assert(before.push(last)[before.len() as int] == last);
        }
    } else {
        lemma_labels_cover(matches.drop_last(), i);
        let k = choose|k: int| 0 <= k < before.len() && before[k] == competition_label(matches[i]);
        if !before.contains(last) {
            assert(before.push(last)[k] == competition_label(matches[i]));
        }
    }
}

/// Every listed label is the label of some match.
pub proof fn lemma_listed_label_occurs(matches: Seq<Match>, p: int) -> (i: int)
    requires
        0 <= p < labels_of(matches).len(),
    ensures
        0 <= i < matches.len(),
        competition_label(matches[i]) == labels_of(matches)[p],
    decreases matches.len(),
{
    let before = labels_of(matches.drop_last());
    if p < before.len() {
        lemma_listed_label_occurs(matches.drop_last(), p)
    } else {
        matches.len() - 1
    }
}

/// The groups stand in the order in which their competitions first occur: of
/// two listed labels, the one listed first has a match that stands before
/// every match of the other.
pub proof fn lemma_first_occurrence_order(matches: Seq<Match>, p: int, q: int) -> (i: int)
    requires
        0 <= p < q < labels_of(matches).len(),
    ensures
        0 <= i < matches.len(),
        competition_label(matches[i]) == labels_of(matches)[p],
        forall|j: int| 0 <= j <= i ==> competition_label(#[trigger] matches[j]) != labels_of(matches)[q],
    decreases matches.len(),
{
    let shorter = matches.drop_last();
    let before = labels_of(shorter);
    let last = competition_label(matches.last());
    assert(labels_of(matches)[p] == before[p]);
    if q < before.len() {
        let i = lemma_first_occurrence_order(shorter, p, q);
        assert(labels_of(matches)[q] == before[q]);
        assert forall|j: int| 0 <= j <= i implies competition_label(#[trigger] matches[j])
            != labels_of(matches)[q] by {
            assert(shorter[j] == matches[j]);
        }
        i
    } else {
        assert(!before.contains(last));
        assert(labels_of(matches)[q] == last);
        let i = lemma_listed_label_occurs(shorter, p);
        assert forall|j: int| 0 <= j <= i implies competition_label(#[trigger] matches[j])
            != labels_of(matches)[q] by {
            lemma_labels_cover(shorter, j);
            assert(shorter[j] == matches[j]);
        }
        i
    }
}

/// Within a group the matches keep the order of the snapshot, and the groups
/// share out the snapshot: every match is a member of the group of its own
/// label, and of that group alone.
pub proof fn lemma_members_partition(matches: Seq<Match>, label: Seq<char>, m: Match)
    ensures
        members_of(matches, label).contains(m) <==> matches.contains(m) && competition_label(m)
            == label,
{
    let pred = |x: Match| competition_label(x) == label;
    if members_of(matches, label).contains(m) {
        matches.lemma_filter_contains_rev(pred, m);
        let k = choose|k: int|
            0 <= k < matches.filter(pred).len() && matches.filter(pred)[k] == m;
        matches.lemma_filter_pred(pred, k);
    }
    if matches.contains(m) && competition_label(m) == label {
        let i = choose|i: int| 0 <= i < matches.len() && matches[i] == m;
        matches.lemma_filter_contains(pred, i);
    }
}

/// Writes the label of the competition of `m`.
pub fn label_of(m: &Match) -> (label: String)
    ensures
        label@ == competition_label(*m),
{
    let mut label = m.comp.country.full_name.clone();
    label.append(" - ");
    label.append(m.comp.name.as_str());
    label
}

/// The position of the first group with the label `label`, if there is one.
pub fn find_group(groups: &Vec<(String, Vec<Match>)>, label: &String) -> (position: Option<usize>)
    ensures
        match position {
            Some(j) => {
                &&& j < groups.len()
                &&& groups[j as int].0@ == label@
                &&& forall|k: int| 0 <= k < j ==> (#[trigger] groups[k]).0@ != label@
            },
            None => forall|k: int| 0 <= k < groups.len() ==> (#[trigger] groups[k]).0@ != label@,
        },
{
    let mut j: usize = 0;
    while j < groups.len()
        invariant
            j <= groups.len(),
            forall|k: int| 0 <= k < j ==> (#[trigger] groups[k]).0@ != label@,
        decreases groups.len() - j,
    {
        if groups[j].0 == *label {
            return Some(j);
        }
        j = j + 1;
    }
    None
}

/// Groups the matches of a snapshot by competition. The groups stand in the
/// order in which their competitions first occur in the snapshot, and each
/// holds its matches in the order of the snapshot.
pub fn group_by_competition(matches: Vec<Match>) -> (groups: Vec<(String, Vec<Match>)>)
    ensures
        grouped(groups@, matches@),
{
    let ghost all = matches@;
    let mut groups: Vec<(String, Vec<Match>)> = Vec::new();
    for m in it: matches.into_iter()
        invariant
            it.seq() == all,
            grouped(groups@, all.take(it.index() as int)),
    {
        let ghost done = all.take(it.index() as int);
        let ghost old_groups = groups@;
        proof {
            assert(all.take(it.index() + 1) =~= done.push(m));
            lemma_labels_distinct(done);
            assert(done.push(m).drop_last() =~= done);
            assert forall|l: Seq<char>| true implies #[trigger] members_of(done.push(m), l) == (
            if competition_label(m) == l {
                members_of(done, l).push(m)
            } else {
                members_of(done, l)
            }) by {
                lemma_members_push(done, m, l);
            }
        }
        let label = label_of(&m);
        match find_group(&groups, &label) {
            Some(j) => {
                proof {
                    assert(labels_of(done)[j as int] == label@);
                    assert(labels_of(done).contains(label@));
                }
                groups[j].1.push(m);
            },
            None => {
                proof {
                    if labels_of(done).contains(label@) {
                        let k = choose|k: int|
                            0 <= k < labels_of(done).len() && labels_of(done)[k] == label@;
                        assert(old_groups[k].0@ == label@);
                    }
                    lemma_unlisted_label_empty(done, label@);
                }
                let mut members: Vec<Match> = Vec::new();
                members.push(m);
                groups.push((label, members));
            },
        }
    }
    assert(all.take(all.len() as int) =~= all);
    groups
}

} // verus!
