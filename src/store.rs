use vstd::prelude::*;

use crate::config::{command_name, PopRule};
use crate::queue::{del_model, pop_model, text_args, zadd_model, zcard_model, ArgModel, CommandModel};

verus! {

/// The sorted sets of the store as commands see them: for each queue name,
/// the score of each member. A queue that is not there is an empty one.
pub type StoreModel = Map<Seq<char>, Map<Seq<u8>, int>>;

/// What the store answers to a command.
pub ghost enum StoreReply {
    /// A blocking pop: the queue, member and score taken, or nothing.
    Popped(Option<(Seq<char>, Seq<u8>, int)>),
    /// A cardinality.
    Count(nat),
    /// An insert or a delete went through.
    Done,
}

/// The members of `queue` and their scores.
pub open spec fn members(store: StoreModel, queue: Seq<char>) -> Map<Seq<u8>, int> {
    if store.contains_key(queue) {
        store[queue]
    } else {
        Map::empty()
    }
}

pub open spec fn has_members(set: Map<Seq<u8>, int>) -> bool {
    exists|m: Seq<u8>| set.contains_key(m)
}

/// `m` is a member that a pop by `rule` may take from `set`: none scores
/// lower (or, for the max rule, higher). Ties are the store's to break.
pub open spec fn is_next(set: Map<Seq<u8>, int>, m: Seq<u8>, rule: Seq<char>) -> bool {
    &&& set.contains_key(m)
    &&& forall|o: Seq<u8>| #[trigger]
        set.contains_key(o) ==> if rule == command_name(PopRule::PopMax) {
            set[o] <= set[m]
        } else {
            set[m] <= set[o]
        }
}

/// `keys[i]` is the first of `keys` with members: a blocking pop over
/// several keys takes from that one.
pub open spec fn first_with_members(store: StoreModel, keys: Seq<Seq<char>>, i: int) -> bool {
    &&& 0 <= i < keys.len()
    &&& has_members(members(store, keys[i]))
    &&& forall|j: int| 0 <= j < i ==> !has_members(#[trigger] members(store, keys[j]))
}

/// A blocking pop by `rule` over `keys` on a store that no one else writes
/// while it waits: it takes a next member of the first key that has one, or
/// times out with nothing after `timeout` seconds. With a timeout of 0 on
/// empty keys it waits forever and never answers.
pub open spec fn pop_step(
    before: StoreModel,
    rule: Seq<char>,
    keys: Seq<Seq<char>>,
    timeout: int,
    reply: StoreReply,
    after: StoreModel,
) -> bool {
    if exists|i: int| first_with_members(before, keys, i) {
        exists|i: int, m: Seq<u8>|
            {
                &&& first_with_members(before, keys, i)
                &&& #[trigger] is_next(members(before, keys[i]), m, rule)
                &&& reply == StoreReply::Popped(
                    Some((keys[i], m, members(before, keys[i])[m])),
                )
                &&& after == before.insert(keys[i], members(before, keys[i]).remove(m))
            }
    } else {
        timeout > 0 && reply == StoreReply::Popped(None) && after == before
    }
}

pub open spec fn text_of(a: ArgModel) -> Seq<char> {
    match a {
        ArgModel::Text(t) => t,
        _ => Seq::empty(),
    }
}

pub open spec fn all_text(args: Seq<ArgModel>) -> bool {
    forall|i: int| 0 <= i < args.len() ==> #[trigger] args[i] is Text
}

/// The store runs `cmd` on `before`, answers `reply` and holds `after`:
/// the documented meaning of the four commands a queue client sends.
pub open spec fn store_step(
    before: StoreModel,
    cmd: CommandModel,
    reply: StoreReply,
    after: StoreModel,
) -> bool {
    let args = cmd.args;
    if cmd.name == "ZADD"@ {
        &&& args.len() == 3
        &&& args[0] is Text
        &&& args[1] is Int
        &&& args[2] is Bytes
        &&& reply == StoreReply::Done
        &&& after == before.insert(
            args[0]->Text_0,
            members(before, args[0]->Text_0).insert(args[2]->Bytes_0, args[1]->Int_0),
        )
    } else if cmd.name == command_name(PopRule::PopMin) || cmd.name == command_name(
        PopRule::PopMax,
    ) {
        &&& args.len() >= 1
        &&& args.last() is Int
        &&& all_text(args.drop_last())
        &&& pop_step(
            before,
            cmd.name,
            args.drop_last().map_values(|a: ArgModel| text_of(a)),
            args.last()->Int_0,
            reply,
            after,
        )
    } else if cmd.name == "ZCARD"@ {
        &&& args.len() == 1
        &&& args[0] is Text
        &&& reply == StoreReply::Count(members(before, args[0]->Text_0).len())
        &&& after == before
    } else if cmd.name == "DEL"@ {
        &&& all_text(args)
        &&& reply == StoreReply::Done
        &&& after == before.remove_keys(args.map_values(|a: ArgModel| text_of(a)).to_set())
    } else {
        false
    }
}

proof fn lemma_literals_differ()
    ensures
        "ZADD"@ != command_name(PopRule::PopMin),
        "ZADD"@ != command_name(PopRule::PopMax),
        command_name(PopRule::PopMin) != command_name(PopRule::PopMax),
        "ZCARD"@ != command_name(PopRule::PopMin),
        "ZCARD"@ != command_name(PopRule::PopMax),
        "ZCARD"@ != "ZADD"@,
        "DEL"@ != command_name(PopRule::PopMin),
        "DEL"@ != command_name(PopRule::PopMax),
        "DEL"@ != "ZADD"@,
        "DEL"@ != "ZCARD"@,
{
    reveal_strlit("ZADD");
    reveal_strlit("ZCARD");
    reveal_strlit("DEL");
    reveal_strlit("BZPOPMIN");
    reveal_strlit("BZPOPMAX");
    assert("ZADD"@[1] != command_name(PopRule::PopMin)[1]);
    assert("ZADD"@[1] != command_name(PopRule::PopMax)[1]);
    assert(command_name(PopRule::PopMin)[6] != command_name(PopRule::PopMax)[6]);
    assert("ZCARD"@.len() != command_name(PopRule::PopMin).len());
    assert("ZCARD"@.len() != command_name(PopRule::PopMax).len());
    assert("ZCARD"@.len() != "ZADD"@.len());
    assert("DEL"@.len() != command_name(PopRule::PopMin).len());
    assert("DEL"@.len() != command_name(PopRule::PopMax).len());
    assert("DEL"@.len() != "ZADD"@.len());
    assert("DEL"@.len() != "ZCARD"@.len());
}

/// The keys of a pop command are the queue names it was made from.
proof fn lemma_pop_keys(rule: Seq<char>, names: Seq<Seq<char>>, timeout: int)
    ensures
        pop_model(rule, names, timeout).args.len() >= 1,
        pop_model(rule, names, timeout).args.last() == ArgModel::Int(timeout),
        all_text(pop_model(rule, names, timeout).args.drop_last()),
        pop_model(rule, names, timeout).args.drop_last().map_values(|a: ArgModel| text_of(a))
            == names,
{
    let args = pop_model(rule, names, timeout).args;
    assert(args.drop_last() =~= text_args(names));
    assert(text_args(names).map_values(|a: ArgModel| text_of(a)) =~= names);
}

/// Pushing one item while all of a client's queues are empty, then popping
/// them all, gives back exactly that item, from the queue it was pushed to
/// (the first), and leaves every queue of the client empty.
pub proof fn lemma_push_then_pop(
    names: Seq<Seq<char>>,
    rule: PopRule,
    data: Seq<u8>,
    score: int,
    timeout: int,
    s0: StoreModel,
    r1: StoreReply,
    s1: StoreModel,
    r2: StoreReply,
    s2: StoreModel,
)
    requires
        names.len() > 0,
        forall|n: Seq<char>| names.contains(n) ==> !has_members(#[trigger] members(s0, n)),
        store_step(s0, zadd_model(names[0], score, data), r1, s1),
        store_step(s1, pop_model(command_name(rule), names, timeout), r2, s2),
    ensures
        r1 == StoreReply::Done,
        r2 == StoreReply::Popped(Some((names[0], data, score))),
        forall|n: Seq<char>| names.contains(n) ==> !has_members(#[trigger] members(s2, n)),
{
    lemma_literals_differ();
    lemma_pop_keys(command_name(rule), names, timeout);
    let q = names[0];
    assert(names.contains(q));
    let set1 = members(s1, q);
    assert(set1 =~= map![data => score]);
    assert(forall|n: Seq<char>| n != q ==> #[trigger] members(s1, n) == members(s0, n));
    assert(first_with_members(s1, names, 0)) by {
        assert(set1.contains_key(data));
    }
    let (i, m) = choose|i: int, m: Seq<u8>|
        {
            &&& first_with_members(s1, names, i)
            &&& #[trigger] is_next(members(s1, names[i]), m, command_name(rule))
            &&& r2 == StoreReply::Popped(Some((names[i], m, members(s1, names[i])[m])))
            &&& s2 == s1.insert(names[i], members(s1, names[i]).remove(m))
        };
    if i != 0 {
        assert(!has_members(members(s1, names[0])));
        assert(false);
    }
    assert(m == data);
    assert(members(s2, q) =~= Map::<Seq<u8>, int>::empty());
    assert forall|n: Seq<char>| names.contains(n) implies !has_members(#[trigger] members(s2, n)) by {
        if n != q {
            assert(members(s2, n) == members(s0, n));
        }
    }
}

/// A pop with a positive timeout over queues that are all empty answers
/// nothing and changes nothing.
pub proof fn lemma_pop_empty_queues(
    names: Seq<Seq<char>>,
    rule: PopRule,
    timeout: int,
    s0: StoreModel,
    r: StoreReply,
    s1: StoreModel,
)
    requires
        timeout > 0,
        forall|n: Seq<char>| names.contains(n) ==> !has_members(#[trigger] members(s0, n)),
        store_step(s0, pop_model(command_name(rule), names, timeout), r, s1),
    ensures
        r == StoreReply::Popped(None),
        s1 == s0,
{
    lemma_literals_differ();
    lemma_pop_keys(command_name(rule), names, timeout);
    if exists|i: int| first_with_members(s0, names, i) {
        let i = choose|i: int| first_with_members(s0, names, i);
        assert(names.contains(names[i]));
    }
}

/// Two pops in a row from one queue take items in the order of the rule:
/// rising scores for the min rule, falling scores for the max rule.
pub proof fn lemma_pops_follow_rule(
    queue: Seq<char>,
    rule: PopRule,
    t1: int,
    t2: int,
    s0: StoreModel,
    r1: StoreReply,
    s1: StoreModel,
    r2: StoreReply,
    s2: StoreModel,
)
    requires
        store_step(s0, pop_model(command_name(rule), seq![queue], t1), r1, s1),
        store_step(s1, pop_model(command_name(rule), seq![queue], t2), r2, s2),
        r1 matches StoreReply::Popped(Some(_)),
        r2 matches StoreReply::Popped(Some(_)),
    ensures
        rule == PopRule::PopMin ==> r1->Popped_0->Some_0.2 <= r2->Popped_0->Some_0.2,
        rule == PopRule::PopMax ==> r1->Popped_0->Some_0.2 >= r2->Popped_0->Some_0.2,
{
    lemma_literals_differ();
    lemma_pop_keys(command_name(rule), seq![queue], t1);
    lemma_pop_keys(command_name(rule), seq![queue], t2);
    let keys = seq![queue];
    let rn = command_name(rule);
    let (i1, m1) = choose|i: int, m: Seq<u8>|
        {
            &&& first_with_members(s0, keys, i)
            &&& #[trigger] is_next(members(s0, keys[i]), m, rn)
            &&& r1 == StoreReply::Popped(Some((keys[i], m, members(s0, keys[i])[m])))
            &&& s1 == s0.insert(keys[i], members(s0, keys[i]).remove(m))
        };
    let (i2, m2) = choose|i: int, m: Seq<u8>|
        {
            &&& first_with_members(s1, keys, i)
            &&& #[trigger] is_next(members(s1, keys[i]), m, rn)
            &&& r2 == StoreReply::Popped(Some((keys[i], m, members(s1, keys[i])[m])))
            &&& s2 == s1.insert(keys[i], members(s1, keys[i]).remove(m))
        };
    assert(i1 == 0 && i2 == 0);
    let set0 = members(s0, queue);
    assert(members(s1, queue) == set0.remove(m1));
    assert(set0.contains_key(m2));
    assert(set0[m2] == members(s1, queue)[m2]);
}

/// Deleting the queues of a client succeeds, changes nothing where none of
/// them was there, and leaves each of them with no items.
pub proof fn lemma_clean_then_length(
    names: Seq<Seq<char>>,
    queue: Seq<char>,
    s0: StoreModel,
    r1: StoreReply,
    s1: StoreModel,
    r2: StoreReply,
    s2: StoreModel,
)
    requires
        names.contains(queue),
        store_step(s0, del_model(names), r1, s1),
        store_step(s1, zcard_model(queue), r2, s2),
    ensures
        r1 == StoreReply::Done,
        r2 == StoreReply::Count(0),
        (forall|n: Seq<char>| names.contains(n) ==> !s0.contains_key(n)) ==> s1 == s0,
{
    lemma_literals_differ();
    let args = del_model(names).args;
    assert(args.map_values(|a: ArgModel| text_of(a)) =~= names);
    assert(all_text(args));
    assert(!s1.contains_key(queue));
    assert(members(s1, queue) =~= Map::<Seq<u8>, int>::empty());
    if forall|n: Seq<char>| names.contains(n) ==> !s0.contains_key(n) {
        assert(s1 =~= s0);
    }
}

/// A pop over several queues takes an item if any of them has one, and the
/// queue it names is the one the item was taken from: one of the client's
/// queues, which loses that item, while every other queue stays as it was.
/// The queues are tried in the order listed: the item is a next one by the
/// rule within its queue, and every queue listed before it was empty.
pub proof fn lemma_fan_in_provenance(
    names: Seq<Seq<char>>,
    rule: PopRule,
    timeout: int,
    s0: StoreModel,
    r: StoreReply,
    s1: StoreModel,
)
    requires
        store_step(s0, pop_model(command_name(rule), names, timeout), r, s1),
    ensures
        (exists|q: Seq<char>| names.contains(q) && has_members(#[trigger] members(s0, q)))
            <==> r matches StoreReply::Popped(Some(_)),
        r matches StoreReply::Popped(Some((q, m, score))) ==> {
            &&& names.contains(q)
            &&& members(s0, q).contains_key(m)
            &&& members(s0, q)[m] == score
            &&& is_next(members(s0, q), m, command_name(rule))
            &&& members(s1, q) == members(s0, q).remove(m)
            &&& forall|n: Seq<char>| n != q ==> #[trigger] members(s1, n) == members(s0, n)
            &&& exists|i: int|
                {
                    &&& 0 <= i < names.len()
                    &&& names[i] == q
                    &&& forall|j: int|
                        0 <= j < i ==> !has_members(#[trigger] members(s0, names[j]))
                }
        },
{
    lemma_literals_differ();
    lemma_pop_keys(command_name(rule), names, timeout);
    let rn = command_name(rule);
    if exists|i: int| first_with_members(s0, names, i) {
        let (i, m) = choose|i: int, m: Seq<u8>|
            {
                &&& first_with_members(s0, names, i)
                &&& #[trigger] is_next(members(s0, names[i]), m, rn)
                &&& r == StoreReply::Popped(Some((names[i], m, members(s0, names[i])[m])))
                &&& s1 == s0.insert(names[i], members(s0, names[i]).remove(m))
            };
        assert(names.contains(names[i]));
    } else {
        if exists|q: Seq<char>| names.contains(q) && has_members(#[trigger] members(s0, q)) {
            let q = choose|q: Seq<char>| names.contains(q) && has_members(#[trigger] members(s0, q));
            let k = choose|k: int| 0 <= k < names.len() && names[k] == q;
            lemma_first_with_members(s0, names, k);
        }
    }
}

/// Where some key has members, a first such key exists.
proof fn lemma_first_with_members(store: StoreModel, keys: Seq<Seq<char>>, k: int)
    requires
        0 <= k < keys.len(),
        has_members(members(store, keys[k])),
    ensures
        exists|i: int| first_with_members(store, keys, i),
    decreases k,
{
    if forall|j: int| 0 <= j < k ==> !has_members(#[trigger] members(store, keys[j])) {
        assert(first_with_members(store, keys, k));
    } else {
        let j = choose|j: int| 0 <= j < k && has_members(#[trigger] members(store, keys[j]));
        lemma_first_with_members(store, keys, j);
    }
}

} // verus!
