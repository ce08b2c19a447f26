//! Which server software can be had, in which versions, and from where.
//!
//! Fetching is done elsewhere.  This module reads the documents that the
//! services return, orders the versions found in them, and builds the
//! addresses to fetch next.
use crate::models::{
    FabricGameVersion, FabricLoaderVersion, Instance, InstanceView, MojangVersion,
    MojangVersionManifest, PaperBuild, PaperBuilds, PaperDownload, PaperProjectResponse,
    VersionDetails, VersionEntry, VersionManifest,
};
use crate::sorting::{
    dedup, is_ordered, law_ordered_list_without_repeats_is_a_set,
    law_sorting_orders_the_same_texts, lemma_characters_tell_apart, sort_by_keys, sorted_by_key,
    tells_apart, without_repeats,
};
use crate::text::{
    begins_with, concat2, concat3, decimal_of, ends_with, from_chars, has_prefix, has_suffix,
    opt_text, parse_u32, parsed_u32, same_chars, same_text, slice_of, split, split_on, texts,
    to_chars, trim, trimmed, u32_to_chars, u32_to_text,
};
use vstd::prelude::*;

verus! {

// ------------------------------------------------------------ version keys

/// The numbers among `pieces`, in order; a piece that writes no number below
/// 2^32 is passed over.
pub open spec fn numbers_among(pieces: Seq<Seq<char>>) -> Seq<u32>
    decreases pieces.len(),
{
    if pieces.len() == 0 {
        Seq::<u32>::empty()
    } else {
        let before = numbers_among(pieces.drop_last());
        match parsed_u32(pieces.last()) {
            Some(n) => before.push(n),
            None => before,
        }
    }
}

/// The key by which versions are ordered: the numbers between the dots.
pub open spec fn version_key(version: Seq<char>) -> Seq<u32> {
    numbers_among(split_on(version, '.'))
}

/// The part of `version` before its first dash.
pub open spec fn before_dash(version: Seq<char>) -> Seq<char> {
    split_on(version, '-')[0]
}

/// The key of a version whose qualifier after the first dash is set aside.
pub open spec fn release_key(version: Seq<char>) -> Seq<u32> {
    version_key(before_dash(version))
}

/// The key that orders texts character by character.
pub open spec fn character_key(s: Seq<char>) -> Seq<u32> {
    s.map_values(|c: char| c as u32)
}

/// The numbers between the dots of `chars`.
pub fn version_key_of(chars: &Vec<char>) -> (key: Vec<u32>)
    ensures
        key@ == version_key(chars@),
{
    let pieces = split(chars, '.');
    let ghost all = pieces@.map_values(|p: Vec<char>| p@);
    let mut key: Vec<u32> = Vec::new();
    let mut i: usize = 0;
    assert(all.take(0) =~= Seq::<Seq<char>>::empty());
    while i < pieces.len()
        invariant
            i <= pieces@.len(),
            all == pieces@.map_values(|p: Vec<char>| p@),
            key@ == numbers_among(all.take(i as int)),
        decreases pieces@.len() - i,
    {
        proof {
            let longer = all.take(i + 1);
            assert(longer.drop_last() == all.take(i as int));
            assert(longer.last() == pieces@[i as int]@);
        }
        match parse_u32(&pieces[i]) {
            Some(n) => key.push(n),
            None => {},
        }
        i += 1;
    }
    assert(all.take(all.len() as int) == all);
    key
}

/// The part of `chars` before its first dash.
pub fn before_dash_of(chars: &Vec<char>) -> (head: Vec<char>)
    ensures
        head@ == before_dash(chars@),
{
    let mut pieces = split(chars, '-');
    let ghost all = pieces@.map_values(|p: Vec<char>| p@);
    assert(all[0] == pieces@[0]@);
    pieces.swap_remove(0)
}

/// The key that orders `chars` character by character.
pub fn character_key_of(chars: &Vec<char>) -> (key: Vec<u32>)
    ensures
        key@ == character_key(chars@),
{
    let mut key: Vec<u32> = Vec::new();
    let mut i: usize = 0;
    while i < chars.len()
        invariant
            i <= chars@.len(),
            key@.len() == i,
            forall|j: int| 0 <= j < i ==> key@[j] == chars@[j] as u32,
        decreases chars@.len() - i,
    {
        key.push(chars[i] as u32);
        i += 1;
    }
    assert(key@ =~= character_key(chars@));
    key
}

/// How a list of versions is ordered.
#[derive(Debug, Clone, Copy, PartialEq, Eq, Structural)]
pub enum VersionOrder {
    /// Character by character, smallest first.
    Characters,
    /// By the numbers between the dots, greatest first.
    NewestFirst,
    /// By the numbers between the dots of what stands before the first dash,
    /// greatest first.
    NewestReleaseFirst,
}

/// The key that `order` gives a version.
pub open spec fn key_under(order: VersionOrder) -> spec_fn(Seq<char>) -> Seq<u32> {
    match order {
        VersionOrder::Characters => |s: Seq<char>| character_key(s),
        VersionOrder::NewestFirst => |s: Seq<char>| version_key(s),
        VersionOrder::NewestReleaseFirst => |s: Seq<char>| release_key(s),
    }
}

/// Whether `order` puts the greatest key first.
pub open spec fn is_descending(order: VersionOrder) -> bool {
    order != VersionOrder::Characters
}

/// `versions` in the given order; versions with equal keys keep their order.
pub open spec fn ordered(versions: Seq<Seq<char>>, order: VersionOrder) -> Seq<Seq<char>> {
    sorted_by_key(versions, key_under(order), is_descending(order))
}

/// Orders a list of versions.
pub fn sort_versions(versions: Vec<String>, order: VersionOrder) -> (sorted: Vec<String>)
    ensures
        texts(sorted@) == ordered(texts(versions@), order),
{
    let mut keys: Vec<Vec<u32>> = Vec::new();
    let mut i: usize = 0;
    let ghost key = key_under(order);
    while i < versions.len()
        invariant
            i <= versions@.len(),
            keys@.len() == i,
            key == key_under(order),
            forall|j: int| 0 <= j < i ==> (#[trigger] keys@[j])@ == key(versions@[j]@),
        decreases versions@.len() - i,
    {
        let chars = to_chars(versions[i].as_str());
        let k = match order {
            VersionOrder::Characters => character_key_of(&chars),
            VersionOrder::NewestFirst => version_key_of(&chars),
            VersionOrder::NewestReleaseFirst => {
                let head = before_dash_of(&chars);
                version_key_of(&head)
            },
        };
        keys.push(k);
        i += 1;
    }
    let descending = match order {
        VersionOrder::Characters => false,
        _ => true,
    };
    sort_by_keys(versions, keys, descending, Ghost(key))
}

// ---------------------------------------------------- picking out versions

/// The opening of a version tag.
pub open spec fn tag_open() -> Seq<char> {
    "<version>"@
}

/// The closing of a version tag.
pub open spec fn tag_close() -> Seq<char> {
    "</version>"@
}

/// What stands between the opening and the closing of the version tag that
/// makes up `line`, white space around the tag set aside; none where the line
/// is no such tag.
pub open spec fn tag_content(line: Seq<char>) -> Option<Seq<char>> {
    let kept = trimmed(line);
    if begins_with(kept, tag_open()) && ends_with(kept.skip(tag_open().len() as int), tag_close()) {
        Some(kept.subrange(tag_open().len() as int, kept.len() - tag_close().len()))
    } else {
        None
    }
}

/// The game version that a NeoForge version is made for: `1.<major>` where
/// the minor number is `0`, else `1.<major>.<minor>`; none where the version
/// has no dot or its major part writes no number.
pub open spec fn neoforge_game_version(version: Seq<char>) -> Option<Seq<char>> {
    let parts = split_on(version, '.');
    if parts.len() >= 2 {
        match parsed_u32(parts[0]) {
            Some(major) => if parts[1] == "0"@ {
                Some("1."@ + decimal_of(major as nat))
            } else {
                Some("1."@ + decimal_of(major as nat) + "."@ + parts[1])
            },
            None => None,
        }
    } else {
        None
    }
}

/// A rule that picks a version out of a text, or passes the text over.
pub enum Pick {
    /// From a version tag: its content up to the first dash.
    TagHead,
    /// From a version tag whose content begins with the given text: what
    /// follows that beginning.
    TagAfter(Vec<char>),
    /// From a NeoForge version: the game version it is made for.
    NeoforgeGame,
    /// The text itself, where it begins with the given text.
    Beginning(Vec<char>),
}

/// The mathematical content of a [`Pick`].
pub enum PickView {
    TagHead,
    TagAfter(Seq<char>),
    NeoforgeGame,
    Beginning(Seq<char>),
}

impl View for Pick {
    type V = PickView;

    open spec fn view(&self) -> PickView {
        match self {
            Pick::TagHead => PickView::TagHead,
            Pick::TagAfter(p) => PickView::TagAfter(p@),
            Pick::NeoforgeGame => PickView::NeoforgeGame,
            Pick::Beginning(p) => PickView::Beginning(p@),
        }
    }
}

/// What the rule picks out of `s`.
pub open spec fn picked(rule: PickView, s: Seq<char>) -> Option<Seq<char>> {
    match rule {
        PickView::TagHead => match tag_content(s) {
            Some(inner) => Some(before_dash(inner)),
            None => None,
        },
        PickView::TagAfter(prefix) => match tag_content(s) {
            Some(inner) => if begins_with(inner, prefix) {
                Some(inner.skip(prefix.len() as int))
            } else {
                None
            },
            None => None,
        },
        PickView::NeoforgeGame => neoforge_game_version(s),
        PickView::Beginning(prefix) => if begins_with(s, prefix) {
            Some(s)
        } else {
            None
        },
    }
}

/// What the rule picks out of each of `items`, in order.
pub open spec fn picked_among(rule: PickView, items: Seq<Seq<char>>) -> Seq<Seq<char>>
    decreases items.len(),
{
    if items.len() == 0 {
        Seq::<Seq<char>>::empty()
    } else {
        let before = picked_among(rule, items.drop_last());
        match picked(rule, items.last()) {
            Some(v) => before.push(v),
            None => before,
        }
    }
}

fn content_of_tag(line: &Vec<char>) -> (inner: Option<Vec<char>>)
    ensures
        match inner {
            Some(v) => tag_content(line@) == Some(v@),
            None => tag_content(line@).is_none(),
        },
{
    let kept = trim(line);
    let open = to_chars("<version>");
    let close = to_chars("</version>");
    if !has_prefix(&kept, &open) {
        return None;
    }
    let rest = slice_of(&kept, open.len(), kept.len());
    assert(rest@ == kept@.skip(open@.len() as int));
    if !has_suffix(&rest, &close) {
        return None;
    }
    let inner = slice_of(&rest, 0, rest.len() - close.len());
    assert(inner@ =~= kept@.subrange(open@.len() as int, kept@.len() - close@.len()));
    Some(inner)
}

fn game_version_of_neoforge(version: &Vec<char>) -> (game: Option<Vec<char>>)
    ensures
        match game {
            Some(v) => neoforge_game_version(version@) == Some(v@),
            None => neoforge_game_version(version@).is_none(),
        },
{
    let parts = split(version, '.');
    let ghost all = parts@.map_values(|p: Vec<char>| p@);
    if parts.len() < 2 {
        return None;
    }
    assert(all[0] == parts@[0]@);
    assert(all[1] == parts@[1]@);
    match parse_u32(&parts[0]) {
        Some(major) => {
            let mut game = to_chars("1.");
            let mut digits = u32_to_chars(major);
            game.append(&mut digits);
            let zero = to_chars("0");
            if !same_chars(&parts[1], &zero) {
                let mut dot = to_chars(".");
                game.append(&mut dot);
                let mut minor = slice_of(&parts[1], 0, parts[1].len());
                assert(minor@ == parts@[1]@);
                game.append(&mut minor);
            }
            Some(game)
        },
        None => None,
    }
}

/// Applies a rule to a text.
pub fn pick(rule: &Pick, s: &Vec<char>) -> (r: Option<Vec<char>>)
    ensures
        match r {
            Some(v) => picked(rule@, s@) == Some(v@),
            None => picked(rule@, s@).is_none(),
        },
{
    match rule {
        Pick::TagHead => match content_of_tag(s) {
            Some(inner) => Some(before_dash_of(&inner)),
            None => None,
        },
        Pick::TagAfter(prefix) => match content_of_tag(s) {
            Some(inner) => {
                if has_prefix(&inner, prefix) {
                    let rest = slice_of(&inner, prefix.len(), inner.len());
                    assert(rest@ == inner@.skip(prefix@.len() as int));
                    Some(rest)
                } else {
                    None
                }
            },
            None => None,
        },
        Pick::NeoforgeGame => game_version_of_neoforge(s),
        Pick::Beginning(prefix) => {
            if has_prefix(s, prefix) {
                let whole = slice_of(s, 0, s.len());
                assert(whole@ == s@);
                Some(whole)
            } else {
                None
            }
        },
    }
}

/// Applies a rule to each of `items` and gathers what it picks, in order.
pub fn pick_among(rule: &Pick, items: &Vec<Vec<char>>) -> (found: Vec<String>)
    ensures
        texts(found@) == picked_among(rule@, items@.map_values(|p: Vec<char>| p@)),
{
    let ghost all = items@.map_values(|p: Vec<char>| p@);
    let mut found: Vec<String> = Vec::new();
    let mut i: usize = 0;
    proof {
        assert(all.take(0) =~= Seq::<Seq<char>>::empty());
        assert(texts(found@) =~= Seq::<Seq<char>>::empty());
    }
    while i < items.len()
        invariant
            i <= items@.len(),
            all == items@.map_values(|p: Vec<char>| p@),
            texts(found@) == picked_among(rule@, all.take(i as int)),
        decreases items@.len() - i,
    {
        proof {
            let longer = all.take(i + 1);
            assert(longer.drop_last() == all.take(i as int));
            assert(longer.last() == items@[i as int]@);
        }
        let ghost before = texts(found@);
        match pick(rule, &items[i]) {
            Some(v) => {
                found.push(from_chars(&v));
                assert(texts(found@) =~= before.push(v@));
            },
            None => {},
        }
        i += 1;
    }
    assert(all.take(all.len() as int) == all);
    found
}

/// The characters of each text of a list.
pub fn chars_of_each(items: &Vec<String>) -> (out: Vec<Vec<char>>)
    ensures
        out@.map_values(|p: Vec<char>| p@) == texts(items@),
{
    let mut out: Vec<Vec<char>> = Vec::new();
    let mut i: usize = 0;
    while i < items.len()
        invariant
            i <= items@.len(),
            out@.len() == i,
            forall|j: int| 0 <= j < i ==> out@[j]@ == items@[j]@,
        decreases items@.len() - i,
    {
        out.push(to_chars(items[i].as_str()));
        i += 1;
    }
    assert(out@.map_values(|p: Vec<char>| p@) =~= texts(items@));
    out
}

// ------------------------------------------------------------ version lists

/// The identifiers of the versions of kind `release`, in list order.
pub open spec fn release_ids(versions: Seq<MojangVersion>) -> Seq<Seq<char>>
    decreases versions.len(),
{
    if versions.len() == 0 {
        Seq::<Seq<char>>::empty()
    } else {
        let before = release_ids(versions.drop_last());
        if versions.last().version_type@ == "release"@ {
            before.push(versions.last().id@)
        } else {
            before
        }
    }
}

/// The released game versions of the vendor's manifest, in its order (newest
/// first).
pub fn get_vanilla_versions(manifest: &MojangVersionManifest) -> (versions: Vec<String>)
    ensures
        texts(versions@) == release_ids(manifest.versions@),
{
    let mut versions: Vec<String> = Vec::new();
    let mut i: usize = 0;
    proof {
        assert(manifest.versions@.take(0) =~= Seq::<MojangVersion>::empty());
        assert(texts(versions@) =~= Seq::<Seq<char>>::empty());
    }
    while i < manifest.versions.len()
        invariant
            i <= manifest.versions@.len(),
            texts(versions@) == release_ids(manifest.versions@.take(i as int)),
        decreases manifest.versions@.len() - i,
    {
        proof {
            let longer = manifest.versions@.take(i + 1);
            assert(longer.drop_last() == manifest.versions@.take(i as int));
            assert(longer.last() == manifest.versions@[i as int]);
        }
        let ghost before = texts(versions@);
        if same_text(manifest.versions[i].version_type.as_str(), "release") {
            versions.push(manifest.versions[i].id.clone());
            assert(texts(versions@) =~= before.push(manifest.versions@[i as int].id@));
        }
        i += 1;
    }
    assert(manifest.versions@.take(manifest.versions@.len() as int) == manifest.versions@);
    versions
}

/// A list of texts in reverse order.
pub fn reversed(items: &Vec<String>) -> (out: Vec<String>)
    ensures
        texts(out@) == texts(items@).reverse(),
{
    let mut out: Vec<String> = Vec::new();
    let n = items.len();
    let mut i: usize = 0;
    while i < n
        invariant
            n == items@.len(),
            i <= n,
            out@.len() == i,
            forall|j: int| 0 <= j < i ==> out@[j]@ == items@[n - 1 - j]@,
        decreases n - i,
    {
        out.push(items[n - 1 - i].clone());
        i += 1;
    }
    assert(texts(out@) =~= texts(items@).reverse());
    out
}

/// The game versions that Paper supports, newest first.  The service lists
/// them oldest first.
pub fn get_paper_versions(project: &PaperProjectResponse) -> (versions: Vec<String>)
    ensures
        texts(versions@) == texts(project.versions@).reverse(),
{
    reversed(&project.versions)
}

/// The game versions that Purpur supports, newest first.  The service lists
/// them oldest first.
pub fn get_purpur_versions(listed: &Vec<String>) -> (versions: Vec<String>)
    ensures
        texts(versions@) == texts(listed@).reverse(),
{
    reversed(listed)
}

/// The stable game versions among `versions`, in list order.
pub open spec fn stable_versions(versions: Seq<FabricGameVersion>) -> Seq<Seq<char>>
    decreases versions.len(),
{
    if versions.len() == 0 {
        Seq::<Seq<char>>::empty()
    } else {
        let before = stable_versions(versions.drop_last());
        if versions.last().stable {
            before.push(versions.last().version@)
        } else {
            before
        }
    }
}

/// The stable game versions that Fabric supports, in the order of the
/// service (newest first).
pub fn get_fabric_game_versions(listed: &Vec<FabricGameVersion>) -> (versions: Vec<String>)
    ensures
        texts(versions@) == stable_versions(listed@),
{
    let mut versions: Vec<String> = Vec::new();
    let mut i: usize = 0;
    proof {
        assert(listed@.take(0) =~= Seq::<FabricGameVersion>::empty());
        assert(texts(versions@) =~= Seq::<Seq<char>>::empty());
    }
    while i < listed.len()
        invariant
            i <= listed@.len(),
            texts(versions@) == stable_versions(listed@.take(i as int)),
        decreases listed@.len() - i,
    {
        proof {
            let longer = listed@.take(i + 1);
            assert(longer.drop_last() == listed@.take(i as int));
            assert(longer.last() == listed@[i as int]);
        }
        let ghost before = texts(versions@);
        if listed[i].stable {
            versions.push(listed[i].version.clone());
            assert(texts(versions@) =~= before.push(listed@[i as int].version@));
        }
        i += 1;
    }
    assert(listed@.take(listed@.len() as int) == listed@);
    versions
}

/// The loader versions that Fabric offers for a game version, in the order of
/// the service (newest first).
pub fn get_fabric_loader_versions(listed: &Vec<FabricLoaderVersion>) -> (versions: Vec<String>)
    ensures
        versions@.len() == listed@.len(),
        forall|i: int|
            0 <= i < listed@.len() ==> (#[trigger] versions@[i])@ == listed@[i].loader.version@,
{
    let mut versions: Vec<String> = Vec::new();
    let mut i: usize = 0;
    while i < listed.len()
        invariant
            i <= listed@.len(),
            versions@.len() == i,
            forall|j: int| 0 <= j < i ==> (#[trigger] versions@[j])@ == listed@[j].loader.version@,
        decreases listed@.len() - i,
    {
        versions.push(listed[i].loader.version.clone());
        i += 1;
    }
    versions
}

/// The lines of `text`: its pieces between line feeds.
pub open spec fn lines_of(text: Seq<char>) -> Seq<Seq<char>> {
    split_on(text, '\n')
}

/// The versions among `found`, each once, newest first: the list is ordered
/// character by character, freed of repeats, and then ordered by the numbers
/// between the dots.
pub open spec fn each_once_newest_first(found: Seq<Seq<char>>) -> Seq<Seq<char>> {
    ordered(without_repeats(ordered(found, VersionOrder::Characters)), VersionOrder::NewestFirst)
}

/// A list of game versions names each version once.
///
/// The list holds exactly the versions that were found, none of them twice,
/// and no version stands after one with a smaller key.
pub proof fn law_game_versions_are_listed_once(found: Seq<Seq<char>>)
    ensures
        each_once_newest_first(found).no_duplicates(),
        forall|v: Seq<char>| each_once_newest_first(found).contains(v) <==> found.contains(v),
        is_ordered(
            each_once_newest_first(found),
            key_under(VersionOrder::NewestFirst),
            true,
        ),
{
    broadcast use vstd::seq_lib::group_to_multiset_ensures;

    let by_characters = key_under(VersionOrder::Characters);
    let by_numbers = key_under(VersionOrder::NewestFirst);
    let sorted = ordered(found, VersionOrder::Characters);
    let unique = without_repeats(sorted);
    let listed = each_once_newest_first(found);
    law_sorting_orders_the_same_texts(found, by_characters, false);
    assert(tells_apart(by_characters)) by {
        assert forall|a: Seq<char>, b: Seq<char>| #[trigger]
            by_characters(a) == #[trigger] by_characters(b) implies a == b by {
            lemma_characters_tell_apart(a, b);
        }
    }
    law_ordered_list_without_repeats_is_a_set(sorted, by_characters, false);
    law_sorting_orders_the_same_texts(unique, by_numbers, true);
    unique.lemma_multiset_has_no_duplicates();
    listed.lemma_multiset_has_no_duplicates_conv();
    assert forall|v: Seq<char>| listed.contains(v) <==> found.contains(v) by {
        vstd::seq_lib::to_multiset_contains(listed, v);
        vstd::seq_lib::to_multiset_contains(unique, v);
        vstd::seq_lib::to_multiset_contains(sorted, v);
        vstd::seq_lib::to_multiset_contains(found, v);
    }
}

/// The game versions for which the Forge metadata lists a build: from each
/// line that is a version tag, what stands before the first dash; each
/// version once; newest first.
pub open spec fn forge_mc_versions_of(metadata: Seq<char>) -> Seq<Seq<char>> {
    each_once_newest_first(picked_among(PickView::TagHead, lines_of(metadata)))
}

/// Reads the game versions with Forge support out of the Forge metadata.
pub fn get_forge_mc_versions(metadata: &str) -> (versions: Vec<String>)
    ensures
        texts(versions@) == forge_mc_versions_of(metadata@),
{
    let chars = to_chars(metadata);
    let lines = split(&chars, '\n');
    let found = pick_among(&Pick::TagHead, &lines);
    let sorted = sort_versions(found, VersionOrder::Characters);
    let unique = dedup(&sorted);
    sort_versions(unique, VersionOrder::NewestFirst)
}

/// The Forge builds that the metadata lists for `mc_version`: from each line
/// that is a version tag beginning with `<mc_version>-`, what follows that
/// beginning; newest first.
pub open spec fn forge_versions_of(metadata: Seq<char>, mc_version: Seq<char>) -> Seq<Seq<char>> {
    ordered(
        picked_among(PickView::TagAfter(mc_version + "-"@), lines_of(metadata)),
        VersionOrder::NewestFirst,
    )
}

/// Reads the Forge builds for a game version out of the Forge metadata.
pub fn get_forge_versions(metadata: &str, mc_version: &str) -> (versions: Vec<String>)
    ensures
        texts(versions@) == forge_versions_of(metadata@, mc_version@),
{
    let chars = to_chars(metadata);
    let lines = split(&chars, '\n');
    let mut prefix = to_chars(mc_version);
    let mut dash = to_chars("-");
    prefix.append(&mut dash);
    let found = pick_among(&Pick::TagAfter(prefix), &lines);
    sort_versions(found, VersionOrder::NewestFirst)
}

/// The game versions for which NeoForge versions exist: the game version of
/// each listed version; each once; newest first.
pub open spec fn neoforge_mc_versions_of(listed: Seq<Seq<char>>) -> Seq<Seq<char>> {
    each_once_newest_first(picked_among(PickView::NeoforgeGame, listed))
}

/// Derives the game versions with NeoForge support from the NeoForge versions.
pub fn get_neoforge_mc_versions(listed: &Vec<String>) -> (versions: Vec<String>)
    ensures
        texts(versions@) == neoforge_mc_versions_of(texts(listed@)),
{
    let items = chars_of_each(listed);
    let found = pick_among(&Pick::NeoforgeGame, &items);
    let sorted = sort_versions(found, VersionOrder::Characters);
    let unique = dedup(&sorted);
    sort_versions(unique, VersionOrder::NewestFirst)
}

/// The beginning of the NeoForge versions made for the game version
/// `mc_version`: `<a>.0.` for `1.<a>`, `<a>.<b>.` for `1.<a>.<b>`; none for
/// any other game version.
pub open spec fn neoforge_prefix_of(mc_version: Seq<char>) -> Option<Seq<char>> {
    if begins_with(mc_version, "1."@) {
        let parts = split_on(mc_version.skip("1."@.len() as int), '.');
        if parts.len() == 1 {
            Some(parts[0] + ".0."@)
        } else if parts.len() == 2 {
            Some(parts[0] + "."@ + parts[1] + "."@)
        } else {
            None
        }
    } else {
        None
    }
}

/// The beginning of the NeoForge versions made for a game version.
pub fn neoforge_prefix(mc_version: &str) -> (prefix: Option<Vec<char>>)
    ensures
        match prefix {
            Some(p) => neoforge_prefix_of(mc_version@) == Some(p@),
            None => neoforge_prefix_of(mc_version@).is_none(),
        },
{
    let chars = to_chars(mc_version);
    let one = to_chars("1.");
    if !has_prefix(&chars, &one) {
        return None;
    }
    let rest = slice_of(&chars, one.len(), chars.len());
    assert(rest@ == chars@.skip(one@.len() as int));
    let mut parts = split(&rest, '.');
    let ghost all = parts@.map_values(|p: Vec<char>| p@);
    if parts.len() == 1 {
        assert(all[0] == parts@[0]@);
        let mut prefix = parts.swap_remove(0);
        let mut tail = to_chars(".0.");
        prefix.append(&mut tail);
        Some(prefix)
    } else if parts.len() == 2 {
        assert(all[0] == parts@[0]@);
        assert(all[1] == parts@[1]@);
        let mut second = parts.swap_remove(1);
        let mut prefix = parts.swap_remove(0);
        let mut dot = to_chars(".");
        let mut last_dot = to_chars(".");
        prefix.append(&mut dot);
        prefix.append(&mut second);
        prefix.append(&mut last_dot);
        Some(prefix)
    } else {
        None
    }
}

/// The NeoForge versions made for `mc_version` among `listed`: those that
/// begin as [`neoforge_prefix_of`] says, newest first, a qualifier after a
/// dash set aside; none for a game version without such a beginning.
pub open spec fn neoforge_versions_of(listed: Seq<Seq<char>>, mc_version: Seq<char>) -> Seq<
    Seq<char>,
> {
    match neoforge_prefix_of(mc_version) {
        Some(prefix) => ordered(
            picked_among(PickView::Beginning(prefix), listed),
            VersionOrder::NewestReleaseFirst,
        ),
        None => Seq::<Seq<char>>::empty(),
    }
}

/// Picks the NeoForge versions made for a game version.
pub fn get_neoforge_versions(listed: &Vec<String>, mc_version: &str) -> (versions: Vec<String>)
    ensures
        texts(versions@) == neoforge_versions_of(texts(listed@), mc_version@),
{
    match neoforge_prefix(mc_version) {
        Some(prefix) => {
            let items = chars_of_each(listed);
            let found = pick_among(&Pick::Beginning(prefix), &items);
            sort_versions(found, VersionOrder::NewestReleaseFirst)
        },
        None => {
            let versions: Vec<String> = Vec::new();
            assert(texts(versions@) =~= Seq::<Seq<char>>::empty());
            versions
        },
    }
}

// ---------------------------------------------------------------- addresses

/// Where the vendor publishes its version manifest.
pub open spec fn vanilla_manifest_url() -> Seq<char> {
    "https://piston-meta.mojang.com/mc/game/version_manifest_v2.json"@
}

/// Where Paper lists the builds of `version`.
pub open spec fn paper_builds_url_of(version: Seq<char>) -> Seq<char> {
    "https://api.papermc.io/v2/projects/paper/versions/"@ + version
}

/// Where Paper describes build `build` of `version`.
pub open spec fn paper_build_url_of(version: Seq<char>, build: u32) -> Seq<char> {
    paper_builds_url_of(version) + "/builds/"@ + decimal_of(build as nat)
}

/// Where Paper offers the file `name` of build `build` of `version`.
pub open spec fn paper_download_url_of(version: Seq<char>, build: u32, name: Seq<char>) -> Seq<
    char,
> {
    paper_build_url_of(version, build) + "/downloads/"@ + name
}

/// Where Purpur offers the latest build of `version`.
pub open spec fn purpur_url_of(version: Seq<char>) -> Seq<char> {
    "https://api.purpurmc.org/v2/purpur/"@ + version + "/latest/download"@
}

/// Where Fabric lists its installers.
pub open spec fn fabric_installers_url() -> Seq<char> {
    "https://meta.fabricmc.net/v2/versions/installer"@
}

/// Where Fabric lists the loaders for the game version `mc_version`.
pub open spec fn fabric_loaders_url_of(mc_version: Seq<char>) -> Seq<char> {
    "https://meta.fabricmc.net/v2/versions/loader/"@ + mc_version
}

/// Where Fabric offers the server launcher for a game version, a loader and
/// an installer.
pub open spec fn fabric_server_url_of(
    mc_version: Seq<char>,
    loader: Seq<char>,
    installer: Seq<char>,
) -> Seq<char> {
    fabric_loaders_url_of(mc_version) + "/"@ + loader + "/"@ + installer + "/server/jar"@
}

/// Where Forge offers the installer of build `forge_version` for the game
/// version `mc_version`.
pub open spec fn forge_installer_url_of(mc_version: Seq<char>, forge_version: Seq<char>) -> Seq<
    char,
> {
    "https://maven.minecraftforge.net/net/minecraftforge/forge/"@ + mc_version + "-"@
        + forge_version + "/forge-"@ + mc_version + "-"@ + forge_version + "-installer.jar"@
}

/// Where NeoForge offers the installer of `version`.
pub open spec fn neoforge_installer_url_of(version: Seq<char>) -> Seq<char> {
    "https://maven.neoforged.net/releases/net/neoforged/neoforge/"@ + version + "/neoforge-"@
        + version + "-installer.jar"@
}

/// Where Paper lists the builds of `version`.
pub fn paper_builds_url(version: &str) -> (url: String)
    ensures
        url@ == paper_builds_url_of(version@),
{
    let mut url = "https://api.papermc.io/v2/projects/paper/versions/".to_string();
    url.append(version);
    url
}

/// Where Paper describes build `build` of `version`.
pub fn paper_build_url(version: &str, build: u32) -> (url: String)
    ensures
        url@ == paper_build_url_of(version@, build),
{
    let mut url = paper_builds_url(version);
    url.append("/builds/");
    let number = u32_to_text(build);
    url.append(number.as_str());
    url
}

/// Where Paper offers the file `name` of build `build` of `version`.
pub fn paper_download_url(version: &str, build: u32, name: &str) -> (url: String)
    ensures
        url@ == paper_download_url_of(version@, build, name@),
{
    let mut url = paper_build_url(version, build);
    url.append("/downloads/");
    url.append(name);
    url
}

/// Where Purpur offers the latest build of `version`.
pub fn resolve_purpur_url(version: &str) -> (url: String)
    ensures
        url@ == purpur_url_of(version@),
{
    let mut url = "https://api.purpurmc.org/v2/purpur/".to_string();
    url.append(version);
    url.append("/latest/download");
    url
}

/// Where Fabric lists the loaders for the game version `mc_version`.
pub fn fabric_loaders_url(mc_version: &str) -> (url: String)
    ensures
        url@ == fabric_loaders_url_of(mc_version@),
{
    let mut url = "https://meta.fabricmc.net/v2/versions/loader/".to_string();
    url.append(mc_version);
    url
}

/// Where Forge offers the installer of a build.
pub fn forge_installer_url(mc_version: &str, forge_version: &str) -> (url: String)
    ensures
        url@ == forge_installer_url_of(mc_version@, forge_version@),
{
    let mut url = "https://maven.minecraftforge.net/net/minecraftforge/forge/".to_string();
    url.append(mc_version);
    url.append("-");
    url.append(forge_version);
    url.append("/forge-");
    url.append(mc_version);
    url.append("-");
    url.append(forge_version);
    url.append("-installer.jar");
    url
}

/// Where NeoForge offers the installer of a version.
pub fn neoforge_installer_url(version: &str) -> (url: String)
    ensures
        url@ == neoforge_installer_url_of(version@),
{
    let mut url = "https://maven.neoforged.net/releases/net/neoforged/neoforge/".to_string();
    url.append(version);
    url.append("/neoforge-");
    url.append(version);
    url.append("-installer.jar");
    url
}

// ------------------------------------------------------- resolving downloads

/// Whether a status reports success: 200 to 299.
pub fn is_success_status(status: u16) -> (r: bool)
    ensures
        r == (200 <= status <= 299),
{
    200 <= status && status <= 299
}

/// Whether entry `i` is the first of the manifest with identifier `version`.
pub open spec fn is_first_entry(entries: Seq<VersionEntry>, version: Seq<char>, i: int) -> bool {
    &&& 0 <= i < entries.len()
    &&& entries[i].id@ == version
    &&& forall|j: int| 0 <= j < i ==> (#[trigger] entries[j]).id@ != version
}

/// Where the details of `version` are found, as the manifest says; or that
/// the manifest does not hold the version.
pub open spec fn vanilla_details_url_of(entries: Seq<VersionEntry>, version: Seq<char>) -> Result<
    Seq<char>,
    Seq<char>,
> {
    if exists|i: int| is_first_entry(entries, version, i) {
        Ok(entries[choose|i: int| is_first_entry(entries, version, i)].url@)
    } else {
        Err("Version "@ + version + " not found in Mojang manifest"@)
    }
}

/// Looks `version` up in the vendor's manifest and returns the address of its
/// details.  The server file is then `downloads.server.url` of the details.
pub fn resolve_vanilla_url(manifest: &VersionManifest, version: &str) -> (r: Result<String, String>)
    ensures
        match r {
            Ok(url) => vanilla_details_url_of(manifest.versions@, version@) == Ok::<
                Seq<char>,
                Seq<char>,
            >(url@),
            Err(e) => vanilla_details_url_of(manifest.versions@, version@) == Err::<
                Seq<char>,
                Seq<char>,
            >(e@),
        },
{
    let mut i: usize = 0;
    while i < manifest.versions.len()
        invariant
            i <= manifest.versions@.len(),
            forall|j: int| 0 <= j < i ==> (#[trigger] manifest.versions@[j]).id@ != version@,
        decreases manifest.versions@.len() - i,
    {
        if same_text(manifest.versions[i].id.as_str(), version) {
            proof {
                let entries = manifest.versions@;
                assert(is_first_entry(entries, version@, i as int));
                let k = choose|k: int| is_first_entry(entries, version@, k);
                if k < i {
                    assert(entries[k].id@ != version@);
                } else if i < k {
                    assert(entries[i as int].id@ != version@);
                }
            }
            return Ok(manifest.versions[i].url.clone());
        }
        i += 1;
    }
    Err(concat3("Version ", version, " not found in Mojang manifest"))
}

/// Where the server file of a version is found, as its details say.
pub fn server_jar_url(details: &VersionDetails) -> (url: String)
    ensures
        url@ == details.downloads.server.url@,
{
    details.downloads.server.url.clone()
}

/// Where the latest build of `version` is described: the last build of the
/// list; or that there is no build.
pub open spec fn paper_latest_of(version: Seq<char>, builds: Seq<PaperBuild>) -> Result<
    (u32, Seq<char>),
    Seq<char>,
> {
    if builds.len() == 0 {
        Err("No Paper builds for "@ + version)
    } else {
        Ok((builds.last().build, paper_build_url_of(version, builds.last().build)))
    }
}

/// Picks the latest Paper build of `version` and returns its number and the
/// address of its description.  The file to download is then named by
/// `downloads.application.name` of the description; see
/// [`paper_download_url`].
pub fn resolve_paper_url(version: &str, builds: &PaperBuilds) -> (r: Result<(u32, String), String>)
    ensures
        match r {
            Ok(found) => paper_latest_of(version@, builds.builds@) == Ok::<
                (u32, Seq<char>),
                Seq<char>,
            >((found.0, found.1@)),
            Err(e) => paper_latest_of(version@, builds.builds@) == Err::<
                (u32, Seq<char>),
                Seq<char>,
            >(e@),
        },
{
    let n = builds.builds.len();
    if n == 0 {
        Err(concat2("No Paper builds for ", version))
    } else {
        let latest = builds.builds[n - 1].build;
        Ok((latest, paper_build_url(version, latest)))
    }
}

/// Where the application file of a Paper build is found, as the description
/// of the build names it.
pub fn paper_file_url(version: &str, build: u32, described: &PaperDownload) -> (url: String)
    ensures
        url@ == paper_download_url_of(version@, build, described.downloads.application.name@),
{
    paper_download_url(version, build, described.downloads.application.name.as_str())
}

/// Where the Fabric server launcher is found, given the listed installer
/// versions: the first installer is used.
pub open spec fn fabric_url_of(
    mc_version: Seq<char>,
    loader: Option<Seq<char>>,
    installers: Seq<Seq<char>>,
) -> Result<Seq<char>, Seq<char>> {
    match loader {
        None => Err("Fabric loader version missing"@),
        Some(l) => if installers.len() == 0 {
            Err("No Fabric installer versions found"@)
        } else {
            Ok(fabric_server_url_of(mc_version, l, installers[0]))
        },
    }
}

/// Builds the address of the Fabric server launcher.
pub fn resolve_fabric_url(mc_version: &str, loader: &Option<String>, installers: &Vec<String>) -> (r:
    Result<String, String>)
    ensures
        match r {
            Ok(url) => fabric_url_of(mc_version@, opt_text(*loader), texts(installers@))
                == Ok::<Seq<char>, Seq<char>>(url@),
            Err(e) => fabric_url_of(mc_version@, opt_text(*loader), texts(installers@))
                == Err::<Seq<char>, Seq<char>>(e@),
        },
{
    match loader {
        None => Err("Fabric loader version missing".to_string()),
        Some(l) => {
            if installers.len() == 0 {
                Err("No Fabric installer versions found".to_string())
            } else {
                assert(texts(installers@)[0] == installers@[0]@);
                let mut url = fabric_loaders_url(mc_version);
                url.append("/");
                url.append(l.as_str());
                url.append("/");
                url.append(installers[0].as_str());
                url.append("/server/jar");
                Ok(url)
            }
        },
    }
}

// ------------------------------------------------------- the download plan

/// How the server file of an instance is obtained.
#[derive(Debug, Clone, PartialEq, Eq)]
pub enum DownloadPlan {
    /// Fetch the vendor's manifest and go on with [`resolve_vanilla_url`].
    Vanilla { manifest_url: String, version: String },
    /// Fetch the list of builds and go on with [`resolve_paper_url`].
    Paper { builds_url: String, version: String },
    /// Download the file at `url`.
    Direct { url: String },
    /// Fetch the list of installers and go on with [`resolve_fabric_url`].
    Fabric { installers_url: String, version: String, loader: Option<String> },
    /// Download and run the installer.
    Installer(InstallerPlan),
    /// Copy the file at `path`.
    CopyCustom { path: String },
}

/// An installer to download and run inside the instance directory.
///
/// The installer is stored as `installer_file` and run with the arguments
/// `-jar <installer_file> --installServer`.  After a successful run the
/// installer and `log_file` are removed, and the file picked by
/// [`find_installed_jar`] becomes the server file.
#[derive(Debug, Clone, PartialEq, Eq)]
pub struct InstallerPlan {
    /// How the installer is called in messages.
    pub name: String,
    pub url: String,
    pub installer_file: String,
    pub log_file: String,
    pub jar_prefix: String,
}

/// The mathematical content of an [`InstallerPlan`].
pub struct InstallerPlanView {
    pub name: Seq<char>,
    pub url: Seq<char>,
    pub installer_file: Seq<char>,
    pub log_file: Seq<char>,
    pub jar_prefix: Seq<char>,
}

impl View for InstallerPlan {
    type V = InstallerPlanView;

    open spec fn view(&self) -> InstallerPlanView {
        InstallerPlanView {
            name: self.name@,
            url: self.url@,
            installer_file: self.installer_file@,
            log_file: self.log_file@,
            jar_prefix: self.jar_prefix@,
        }
    }
}

/// The mathematical content of a [`DownloadPlan`].
pub enum DownloadPlanView {
    Vanilla { manifest_url: Seq<char>, version: Seq<char> },
    Paper { builds_url: Seq<char>, version: Seq<char> },
    Direct { url: Seq<char> },
    Fabric { installers_url: Seq<char>, version: Seq<char>, loader: Option<Seq<char>> },
    Installer(InstallerPlanView),
    CopyCustom { path: Seq<char> },
}

impl View for DownloadPlan {
    type V = DownloadPlanView;

    open spec fn view(&self) -> DownloadPlanView {
        match self {
            DownloadPlan::Vanilla { manifest_url, version } => DownloadPlanView::Vanilla {
                manifest_url: manifest_url@,
                version: version@,
            },
            DownloadPlan::Paper { builds_url, version } => DownloadPlanView::Paper {
                builds_url: builds_url@,
                version: version@,
            },
            DownloadPlan::Direct { url } => DownloadPlanView::Direct { url: url@ },
            DownloadPlan::Fabric { installers_url, version, loader } => DownloadPlanView::Fabric {
                installers_url: installers_url@,
                version: version@,
                loader: opt_text(*loader),
            },
            DownloadPlan::Installer(plan) => DownloadPlanView::Installer(plan@),
            DownloadPlan::CopyCustom { path } => DownloadPlanView::CopyCustom { path: path@ },
        }
    }
}

/// The Forge installer for a game version and a build.
pub open spec fn forge_plan_of(mc_version: Seq<char>, forge_version: Seq<char>)
    -> InstallerPlanView {
    InstallerPlanView {
        name: "Forge"@,
        url: forge_installer_url_of(mc_version, forge_version),
        installer_file: "forge-installer.jar"@,
        log_file: "forge-installer.jar.log"@,
        jar_prefix: "forge-"@,
    }
}

/// The NeoForge installer for a version.
pub open spec fn neoforge_plan_of(version: Seq<char>) -> InstallerPlanView {
    InstallerPlanView {
        name: "NeoForge"@,
        url: neoforge_installer_url_of(version),
        installer_file: "neoforge-installer.jar"@,
        log_file: "neoforge-installer.jar.log"@,
        jar_prefix: "neoforge-"@,
    }
}

/// How the server file of `instance` is obtained, or why it cannot be.
pub open spec fn download_plan_of(instance: InstanceView) -> Result<DownloadPlanView, Seq<char>> {
    if instance.software == "vanilla"@ {
        Ok(
            DownloadPlanView::Vanilla {
                manifest_url: vanilla_manifest_url(),
                version: instance.version,
            },
        )
    } else if instance.software == "papermc"@ {
        Ok(
            DownloadPlanView::Paper {
                builds_url: paper_builds_url_of(instance.version),
                version: instance.version,
            },
        )
    } else if instance.software == "purpur"@ {
        Ok(DownloadPlanView::Direct { url: purpur_url_of(instance.version) })
    } else if instance.software == "fabric"@ {
        match instance.loader {
            Some(_) => Ok(
                DownloadPlanView::Fabric {
                    installers_url: fabric_installers_url(),
                    version: instance.version,
                    loader: instance.loader,
                },
            ),
            None => Err("Fabric loader version missing"@),
        }
    } else if instance.software == "forge"@ {
        match instance.loader {
            Some(loader) => Ok(DownloadPlanView::Installer(forge_plan_of(instance.version, loader))),
            None => Err("Forge requires a loader/installer version"@),
        }
    } else if instance.software == "neoforge"@ {
        match instance.loader {
            Some(loader) => Ok(DownloadPlanView::Installer(neoforge_plan_of(loader))),
            None => Err("NeoForge requires a loader/installer version"@),
        }
    } else if instance.software == "custom"@ {
        match instance.custom_jar_path {
            Some(path) => Ok(DownloadPlanView::CopyCustom { path }),
            None => Err("Custom software requires a custom_jar_path"@),
        }
    } else {
        Err("Unsupported software '"@ + instance.software + "'"@)
    }
}

/// The Forge installer for a game version and a build.
pub fn install_forge(mc_version: &str, forge_version: &str) -> (plan: InstallerPlan)
    ensures
        plan@ == forge_plan_of(mc_version@, forge_version@),
{
    InstallerPlan {
        name: "Forge".to_string(),
        url: forge_installer_url(mc_version, forge_version),
        installer_file: "forge-installer.jar".to_string(),
        log_file: "forge-installer.jar.log".to_string(),
        jar_prefix: "forge-".to_string(),
    }
}

/// The NeoForge installer for a version.
pub fn install_neoforge(neoforge_version: &str) -> (plan: InstallerPlan)
    ensures
        plan@ == neoforge_plan_of(neoforge_version@),
{
    InstallerPlan {
        name: "NeoForge".to_string(),
        url: neoforge_installer_url(neoforge_version),
        installer_file: "neoforge-installer.jar".to_string(),
        log_file: "neoforge-installer.jar.log".to_string(),
        jar_prefix: "neoforge-".to_string(),
    }
}

/// Decides how the server file of `instance` is obtained.  The file is stored
/// as `server.jar` in the instance directory.
pub fn download_server_jar(instance: &Instance) -> (r: Result<DownloadPlan, String>)
    ensures
        match r {
            Ok(plan) => download_plan_of(instance@) == Ok::<DownloadPlanView, Seq<char>>(plan@),
            Err(e) => download_plan_of(instance@) == Err::<DownloadPlanView, Seq<char>>(e@),
        },
{
    let software = instance.software.as_str();
    let version = instance.version.as_str();
    if same_text(software, "vanilla") {
        Ok(
            DownloadPlan::Vanilla {
                manifest_url: "https://piston-meta.mojang.com/mc/game/version_manifest_v2.json".to_string(),
                version: instance.version.clone(),
            },
        )
    } else if same_text(software, "papermc") {
        Ok(
            DownloadPlan::Paper {
                builds_url: paper_builds_url(version),
                version: instance.version.clone(),
            },
        )
    } else if same_text(software, "purpur") {
        Ok(DownloadPlan::Direct { url: resolve_purpur_url(version) })
    } else if same_text(software, "fabric") {
        match &instance.loader {
            Some(loader) => Ok(
                DownloadPlan::Fabric {
                    installers_url: "https://meta.fabricmc.net/v2/versions/installer".to_string(),
                    version: instance.version.clone(),
                    loader: Some(loader.clone()),
                },
            ),
            None => Err("Fabric loader version missing".to_string()),
        }
    } else if same_text(software, "forge") {
        match &instance.loader {
            Some(loader) => Ok(DownloadPlan::Installer(install_forge(version, loader.as_str()))),
            None => Err("Forge requires a loader/installer version".to_string()),
        }
    } else if same_text(software, "neoforge") {
        match &instance.loader {
            Some(loader) => Ok(DownloadPlan::Installer(install_neoforge(loader.as_str()))),
            None => Err("NeoForge requires a loader/installer version".to_string()),
        }
    } else if same_text(software, "custom") {
        match &instance.custom_jar_path {
            Some(path) => Ok(DownloadPlan::CopyCustom { path: path.clone() }),
            None => Err("Custom software requires a custom_jar_path".to_string()),
        }
    } else {
        Err(concat3("Unsupported software '", software, "'"))
    }
}

/// Whether a file of that name is what an installer leaves as the server:
/// a name that begins with the installer's prefix, ends with `.jar`, and is
/// not the installer itself.
pub open spec fn is_installed_jar(plan: InstallerPlanView, name: Seq<char>) -> bool {
    &&& begins_with(name, plan.jar_prefix)
    &&& ends_with(name, ".jar"@)
    &&& name != plan.installer_file
}

/// Whether file `i` is the first that the installer left as the server.
pub open spec fn is_first_installed_jar(plan: InstallerPlanView, names: Seq<Seq<char>>, i: int)
    -> bool {
    &&& 0 <= i < names.len()
    &&& is_installed_jar(plan, names[i])
    &&& forall|j: int| 0 <= j < i ==> !is_installed_jar(plan, #[trigger] names[j])
}

/// Finds, among the file names of the instance directory, the first file that
/// the installer left as the server.  That file is renamed to `server.jar`.
pub fn find_installed_jar(plan: &InstallerPlan, names: &Vec<String>) -> (found: Option<usize>)
    ensures
        match found {
            Some(i) => is_first_installed_jar(plan@, texts(names@), i as int),
            None => forall|j: int|
                0 <= j < names@.len() ==> !is_installed_jar(plan@, #[trigger] texts(names@)[j]),
        },
{
    let prefix = to_chars(plan.jar_prefix.as_str());
    let suffix = to_chars(".jar");
    let mut i: usize = 0;
    while i < names.len()
        invariant
            i <= names@.len(),
            prefix@ == plan@.jar_prefix,
            suffix@ == ".jar"@,
            forall|j: int| 0 <= j < i ==> !is_installed_jar(plan@, #[trigger] texts(names@)[j]),
        decreases names@.len() - i,
    {
        let name = to_chars(names[i].as_str());
        assert(texts(names@)[i as int] == name@);
        if has_prefix(&name, &prefix) && has_suffix(&name, &suffix) && !same_text(
            names[i].as_str(),
            plan.installer_file.as_str(),
        ) {
            return Some(i);
        }
        i += 1;
    }
    None
}

} // verus!
