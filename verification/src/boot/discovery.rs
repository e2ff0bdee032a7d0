//! The folders that an account protects: those that its configuration names, and
//! those that its server declares as special.
use vstd::prelude::*;
use vstd::string::*;

use crate::boot::mutf7;
use crate::boot::mutf7::holds_folder;
use crate::boot::mutf7_encoding;
use crate::boot::tool_matrix;
use crate::boot::tool_matrix::{account_tool_matrix, AccountConfig, AccountToolMatrix};
use crate::text;

verus! {

/// The configured folders, and behind them, in their order, the discovered ones
/// that the list does not hold yet.
pub open spec fn merged(configured: Seq<Seq<char>>, discovered: Seq<Seq<char>>) -> Seq<Seq<char>>
    decreases discovered.len(),
{
    if discovered.len() == 0 {
        configured
    } else {
        let before = merged(configured, discovered.drop_last());
        if mutf7::holds(before, discovered.last()) {
            before
        } else {
            before.push(discovered.last())
        }
    }
}

/// The configured folders come first, unchanged and in their order.
pub proof fn law_configured_folders_are_kept(
    configured: Seq<Seq<char>>,
    discovered: Seq<Seq<char>>,
)
    ensures
        merged(configured, discovered).len() >= configured.len(),
        merged(configured, discovered).take(configured.len() as int) == configured,
    decreases discovered.len(),
{
    if discovered.len() == 0 {
        assert(configured.take(configured.len() as int) =~= configured);
    } else {
        law_configured_folders_are_kept(configured, discovered.drop_last());
        let before = merged(configured, discovered.drop_last());
        let after = merged(configured, discovered);
        assert(after.take(configured.len() as int) =~= before.take(configured.len() as int));
    }
}

/// Every discovered folder is protected.
pub proof fn law_every_discovered_folder_is_held(
    configured: Seq<Seq<char>>,
    discovered: Seq<Seq<char>>,
    i: int,
)
    requires
        0 <= i < discovered.len(),
    ensures
        mutf7::holds(merged(configured, discovered), discovered[i]),
    decreases discovered.len(),
{
    let before = merged(configured, discovered.drop_last());
    let after = merged(configured, discovered);
    if i < discovered.len() - 1 {
        law_every_discovered_folder_is_held(configured, discovered.drop_last(), i);
        let k = choose|k: int|
            0 <= k < before.len() && mutf7::normal_form(#[trigger] before[k])
                == mutf7::normal_form(discovered[i]);
        assert(after[k] == before[k]);
    } else if !mutf7::holds(before, discovered.last()) {
        assert(after[before.len() as int] == discovered.last());
    }
}

/// What is added is no folder that stands before it under another name.
pub proof fn law_nothing_is_added_twice(
    configured: Seq<Seq<char>>,
    discovered: Seq<Seq<char>>,
    i: int,
    j: int,
)
    requires
        0 <= i < j < merged(configured, discovered).len(),
        configured.len() <= j,
    ensures
        mutf7::normal_form(merged(configured, discovered)[i]) != mutf7::normal_form(
            merged(configured, discovered)[j],
        ),
    decreases discovered.len(),
{
    if discovered.len() > 0 {
        let before = merged(configured, discovered.drop_last());
        if j < before.len() {
            law_nothing_is_added_twice(configured, discovered.drop_last(), i, j);
        } else {
            assert(merged(configured, discovered)[i] == before[i]);
        }
    }
}

/// What is added was discovered.
pub proof fn law_only_discovered_folders_are_added(
    configured: Seq<Seq<char>>,
    discovered: Seq<Seq<char>>,
    j: int,
)
    requires
        configured.len() <= j < merged(configured, discovered).len(),
    ensures
        discovered.contains(merged(configured, discovered)[j]),
    decreases discovered.len(),
{
    if discovered.len() > 0 {
        let rest = discovered.drop_last();
        let before = merged(configured, rest);
        if j < before.len() {
            law_only_discovered_folders_are_added(configured, rest, j);
            let k = choose|k: int| 0 <= k < rest.len() && rest[k] == before[j];
            assert(discovered[k] == before[j]);
        } else {
            assert(discovered[discovered.len() - 1] == discovered.last());
        }
    }
}

/// The places of `whole` at which `part` stands, in their order.
pub open spec fn places_of(part: Seq<Seq<char>>, whole: Seq<Seq<char>>, at: Seq<int>) -> bool {
    &&& at.len() == part.len()
    &&& forall|i: int|
        0 <= i < at.len() ==> 0 <= #[trigger] at[i] < whole.len() && whole[at[i]] == part[i]
    &&& forall|i: int, j: int| 0 <= i < j < at.len() ==> at[i] < at[j]
}

/// What is added is a part of what was discovered, in the order in which it was
/// discovered.
pub proof fn law_added_folders_keep_their_order(
    configured: Seq<Seq<char>>,
    discovered: Seq<Seq<char>>,
)
    ensures
        exists|at: Seq<int>|
            places_of(
                merged(configured, discovered).skip(configured.len() as int),
                discovered,
                at,
            ),
{
    let at = lemma_places(configured, discovered);
    assert(places_of(merged(configured, discovered).skip(configured.len() as int), discovered, at));
}

proof fn lemma_places(configured: Seq<Seq<char>>, discovered: Seq<Seq<char>>) -> (at: Seq<int>)
    ensures
        places_of(merged(configured, discovered).skip(configured.len() as int), discovered, at),
    decreases discovered.len(),
{
    let added = merged(configured, discovered).skip(configured.len() as int);
    if discovered.len() == 0 {
        assert(added =~= Seq::empty());
        Seq::empty()
    } else {
        let rest = discovered.drop_last();
        let before = merged(configured, rest);
        law_configured_folders_are_kept(configured, rest);
        let at = lemma_places(configured, rest);
        assert forall|i: int| 0 <= i < at.len() implies 0 <= #[trigger] at[i] < discovered.len()
            && discovered[at[i]] == before.skip(configured.len() as int)[i] by {
            assert(rest[at[i]] == discovered[at[i]]);
        }
        if mutf7::holds(before, discovered.last()) {
            at
        } else {
            assert(added =~= before.skip(configured.len() as int).push(discovered.last()));
            at.push(discovered.len() - 1)
        }
    }
}

/// What the configuration names is never put down to the server.
pub proof fn law_configured_folder_is_not_discovered(
    config: AccountConfig,
    discovered: Seq<Seq<char>>,
    i: int,
)
    requires
        0 <= i < config.protected_folders@.len(),
    ensures
        ({
            let configured = text::texts(config.protected_folders@);
            tool_matrix::matrix_of(
                config,
                Some(merged(configured, discovered)),
            ).protected_folders[i] == (
                configured[i],
                tool_matrix::layer(config.account_written_protected_folders),
            )
        }),
{
    let configured = text::texts(config.protected_folders@);
    let all = merged(configured, discovered);
    law_configured_folders_are_kept(configured, discovered);
    assert(all.take(configured.len() as int)[i] == all[i]);
    assert(mutf7::normal_form(configured[i]) == mutf7::normal_form(all[i]));
}

/// What the look-up added is put down to the server.
pub proof fn law_added_folder_is_discovered(
    config: AccountConfig,
    discovered: Seq<Seq<char>>,
    j: int,
)
    requires
        config.protected_folders@.len() <= j,
        j < merged(text::texts(config.protected_folders@), discovered).len(),
    ensures
        ({
            let all = merged(text::texts(config.protected_folders@), discovered);
            tool_matrix::matrix_of(config, Some(all)).protected_folders[j] == (
                all[j],
                tool_matrix::FolderSource::Discovered,
            )
        }),
{
    let configured = text::texts(config.protected_folders@);
    let all = merged(configured, discovered);
    law_configured_folders_are_kept(configured, discovered);
    assert forall|i: int| 0 <= i < configured.len() implies mutf7::normal_form(
        #[trigger] configured[i],
    ) != mutf7::normal_form(all[j]) by {
        assert(all.take(configured.len() as int)[i] == all[i]);
        law_nothing_is_added_twice(configured, discovered, i, j);
    }
}

/// The configured folders, and behind them the discovered ones that are not among
/// them already, whatever their case or encoding.
pub fn merge_protected_folders(configured: &Vec<String>, discovered: Vec<String>) -> (r: Vec<
    String,
>)
    ensures
        text::texts(r@) == merged(text::texts(configured@), text::texts(discovered@)),
{
    let mut protected: Vec<String> = Vec::new();
    for i in 0..configured.len()
        invariant
            protected@.len() == i,
            forall|j: int| 0 <= j < i ==> (#[trigger] protected@[j])@ == configured@[j]@,
    {
        protected.push(configured[i].as_str().to_owned());
    }
    let ghost first = text::texts(configured@);
    let ghost names = text::texts(discovered@);
    assert(text::texts(protected@) =~= first);
    assert(names.take(0) =~= Seq::empty());
    for i in 0..discovered.len()
        invariant
            names == text::texts(discovered@),
            text::texts(protected@) == merged(first, names.take(i as int)),
    {
        proof {
            assert(names.take(i + 1).drop_last() =~= names.take(i as int));
            assert(names.take(i + 1).last() == discovered@[i as int]@);
        }
        let name = discovered[i].as_str();
        if !holds_folder(&protected, name) {
            let ghost before = text::texts(protected@);
            protected.push(name.to_owned());
            assert(text::texts(protected@) =~= before.push(name@));
        }
    }
    assert(names.take(names.len() as int) =~= names);
    protected
}

/// What the look-up of an account's folders leads to: the list that guards the
/// account, and the policy that is recorded of it.
pub struct ResolvedFolderPolicy {
    pub protected: Vec<String>,
    pub matrix: AccountToolMatrix,
}

/// The list that guards an account whose server declares `discovered`, and the
/// policy to record. Both come from the one merged list.
pub fn resolve_folder_policy(
    acfg: &AccountConfig,
    discovered: Vec<String>,
) -> (r: ResolvedFolderPolicy)
    ensures
        text::texts(r.protected@) == merged(
            text::texts(acfg.protected_folders@),
            text::texts(discovered@),
        ),
        r.matrix@ == tool_matrix::matrix_of(*acfg, Some(text::texts(r.protected@))),
{
    let protected = merge_protected_folders(&acfg.protected_folders, discovered);
    let matrix = account_tool_matrix(acfg, Some(&protected));
    ResolvedFolderPolicy { protected, matrix }
}

/// A folder that is held already, under whatever name, changes nothing. Any other comes
/// last, under the name that the server gave it.
pub proof fn law_folder_is_added_where_it_is_new(
    configured: Seq<Seq<char>>,
    discovered: Seq<Seq<char>>,
    folder: Seq<char>,
)
    ensures
        merged(configured, discovered.push(folder)) == if mutf7::holds(
            merged(configured, discovered),
            folder,
        ) {
            merged(configured, discovered)
        } else {
            merged(configured, discovered).push(folder)
        },
        merged(configured, Seq::empty()) == configured,
{
    assert(discovered.push(folder).drop_last() =~= discovered);
}

/// A configured folder that the server declares under its encoded name is not added
/// again, and neither is one that the server declares in another case.
pub proof fn law_server_name_of_a_configured_folder_is_not_added(
    configured: Seq<Seq<char>>,
    i: int,
    other: Seq<char>,
)
    requires
        0 <= i < configured.len(),
        !configured[i].contains('&'),
        !other.contains('&'),
        mutf7::lower_case(other) == mutf7::lower_case(configured[i]),
    ensures
        merged(configured, seq![mutf7_encoding::encoded(configured[i])]) == configured,
        merged(configured, seq![other]) == configured,
        merged(configured, seq![mutf7_encoding::encoded(other)]) == configured,
{
    mutf7_encoding::law_encoded_name_is_the_same_folder(configured, i);
    mutf7_encoding::law_encoded_name_is_the_same_folder(seq![other], 0);
    mutf7::law_plain_name_decodes_to_itself(configured[i]);
    mutf7::law_plain_name_decodes_to_itself(other);
    let none = Seq::<Seq<char>>::empty();
    assert(mutf7::holds(configured, other));
    assert(mutf7::normal_form(seq![other][0]) == mutf7::lower_case(other));
    assert(mutf7::holds(configured, mutf7_encoding::encoded(other)));
    assert(seq![other] =~= none.push(other));
    assert(seq![mutf7_encoding::encoded(other)] =~= none.push(mutf7_encoding::encoded(other)));
    assert(seq![mutf7_encoding::encoded(configured[i])] =~= none.push(
        mutf7_encoding::encoded(configured[i]),
    ));
    law_folder_is_added_where_it_is_new(configured, none, other);
    law_folder_is_added_where_it_is_new(configured, none, mutf7_encoding::encoded(other));
    law_folder_is_added_where_it_is_new(configured, none, mutf7_encoding::encoded(configured[i]));
}

} // verus!
