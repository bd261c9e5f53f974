//! Substitutions of one model for another.

use vstd::prelude::*;

use crate::catalog;
use crate::catalog::normalize_id;
use crate::order;
use crate::text;
use crate::text::same;

pub mod laws;
pub mod readback;

verus! {

/// Requests for the model `source` go to the model `target`.
#[derive(Debug, PartialEq, Eq)]
pub struct Entry {
    pub source: String,
    pub target: String,
}

#[verifier::ext_equal]
pub struct EntryV {
    pub source: Seq<char>,
    pub target: Seq<char>,
}

impl Entry {
    pub open spec fn view(&self) -> EntryV {
        EntryV { source: self.source@, target: self.target@ }
    }

    pub fn copy(&self) -> (r: Entry)
        ensures
            r@ == self@,
    {
        Entry { source: text::owned(&self.source), target: text::owned(&self.target) }
    }
}

pub open spec fn entries_v(s: Seq<Entry>) -> Seq<EntryV> {
    s.map_values(|e: Entry| e@)
}

/// What a requested model comes to.
#[derive(Debug, PartialEq, Eq)]
pub struct Resolution {
    pub requested: String,
    pub model: String,
    pub fast: bool,
    pub mapped: bool,
    /// The names that were gone through, the requested one first.
    pub chain: Vec<String>,
}

#[verifier::ext_equal]
pub struct ResolutionV {
    pub requested: Seq<char>,
    pub model: Seq<char>,
    pub fast: bool,
    pub mapped: bool,
    pub chain: Seq<Seq<char>>,
}

impl Resolution {
    pub open spec fn view(&self) -> ResolutionV {
        ResolutionV {
            requested: self.requested@,
            model: self.model@,
            fast: self.fast,
            mapped: self.mapped,
            chain: text::views(self.chain@),
        }
    }

    /// The name of the model, with the suffix `-fast` where it is fast.
    pub fn effective_model_id(&self) -> (r: String)
        ensures
            r@ == effective_v(self@),
    {
        if self.fast && !self.model.as_str().is_empty() {
            text::cat(&self.model, "-fast")
        } else {
            text::owned(&self.model)
        }
    }
}

pub open spec fn effective_v(r: ResolutionV) -> Seq<char> {
    if r.fast && r.model.len() > 0 {
        r.model + "-fast"@
    } else {
        r.model
    }
}

/// Why a list of substitutions is refused.
#[derive(Debug)]
pub enum MapError {
    /// No equals sign between source and target.
    NoSeparator(String),
    /// The source or the target is blank.
    Missing(String),
    /// More than one equals sign.
    ManySeparators(String),
    /// White space or a control character within a name.
    BadName,
    /// A model that stands for itself.
    Identical(String),
    /// A source that occurs twice.
    Duplicate(String),
    /// Names that lead back to one another.
    Cycle(Vec<String>),
}

#[verifier::ext_equal]
pub enum MapErrorV {
    NoSeparator(Seq<char>),
    Missing(Seq<char>),
    ManySeparators(Seq<char>),
    BadName,
    Identical(Seq<char>),
    Duplicate(Seq<char>),
    Cycle(Seq<Seq<char>>),
}

impl MapErrorV {
    pub open spec fn text(self) -> Seq<char> {
        match self {
            MapErrorV::NoSeparator(raw) => "invalid model substitution "@ + text::debug_form(raw)
                + ": expected source=target"@,
            MapErrorV::Missing(raw) => "invalid model substitution "@ + text::debug_form(raw)
                + ": source and target are required"@,
            MapErrorV::ManySeparators(raw) => "invalid model substitution "@ + text::debug_form(raw)
                + ": too many '=' separators"@,
            MapErrorV::BadName => "model IDs cannot contain whitespace or control characters"@,
            MapErrorV::Identical(raw) => "invalid model substitution "@ + text::debug_form(raw)
                + ": source and target are identical"@,
            MapErrorV::Duplicate(source) => "duplicate model substitution for "@ + text::debug_form(
                source,
            ),
            MapErrorV::Cycle(chain) => "model substitution cycle: "@ + text::join_v(
                chain,
                " -> "@,
            ),
        }
    }
}

impl MapError {
    pub open spec fn view(&self) -> MapErrorV {
        match self {
            MapError::NoSeparator(s) => MapErrorV::NoSeparator(s@),
            MapError::Missing(s) => MapErrorV::Missing(s@),
            MapError::ManySeparators(s) => MapErrorV::ManySeparators(s@),
            MapError::BadName => MapErrorV::BadName,
            MapError::Identical(s) => MapErrorV::Identical(s@),
            MapError::Duplicate(s) => MapErrorV::Duplicate(s@),
            MapError::Cycle(c) => MapErrorV::Cycle(text::views(c@)),
        }
    }

    /// The error in words.
    pub fn message(&self) -> (r: String)
        ensures
            r@ == self@.text(),
    {
        match self {
            MapError::NoSeparator(raw) => text::cat3(
                "invalid model substitution ",
                &text::debug_text(raw),
                ": expected source=target",
            ),
            MapError::Missing(raw) => text::cat3(
                "invalid model substitution ",
                &text::debug_text(raw),
                ": source and target are required",
            ),
            MapError::ManySeparators(raw) => text::cat3(
                "invalid model substitution ",
                &text::debug_text(raw),
                ": too many '=' separators",
            ),
            MapError::BadName => text::owned(
                "model IDs cannot contain whitespace or control characters",
            ),
            MapError::Identical(raw) => text::cat3(
                "invalid model substitution ",
                &text::debug_text(raw),
                ": source and target are identical",
            ),
            MapError::Duplicate(source) => text::cat(
                "duplicate model substitution for ",
                &text::debug_text(source),
            ),
            MapError::Cycle(chain) => text::cat(
                "model substitution cycle: ",
                &text::join(chain, " -> "),
            ),
        }
    }
}

/// No white space and no control characters.
pub open spec fn plain_v(s: Seq<char>) -> bool {
    forall|i: int| 0 <= i < s.len() ==> !text::is_space(#[trigger] s[i]) && !text::is_ctl(s[i])
}

fn plain(s: &str) -> (r: bool)
    ensures
        r == plain_v(s@),
{
    let v = text::chars_of(s);
    let mut i: usize = 0;
    while i < v.len()
        invariant
            i <= v@.len(),
            v@ == s@,
            forall|k: int| 0 <= k < i ==> !text::is_space(#[trigger] s@[k]) && !text::is_ctl(s@[k]),
        decreases v@.len() - i,
    {
        let c: char = v[i];
        if text::space(c) || text::control(c) {
            assert(s@[i as int] == c);
            return false;
        }
        i += 1;
    }
    true
}

/// The target of the substitution for `id`.
pub open spec fn direct_v(map: Seq<EntryV>, id: Seq<char>) -> Option<Seq<char>>
    decreases map.len(),
{
    if map.len() == 0 {
        None
    } else if map.last().source == id {
        Some(map.last().target)
    } else {
        direct_v(map.drop_last(), id)
    }
}

/// The substitution that `raw`, without space around it, writes down, to stand
/// with those of `map`.
pub open spec fn entry_v(map: Seq<EntryV>, raw: Seq<char>) -> Result<EntryV, MapErrorV> {
    match text::find_from_v(raw, "="@, 0) {
        None => Err(MapErrorV::NoSeparator(raw)),
        Some(i) => {
            let source = text::trim_v(raw.take(i));
            let target = text::trim_v(raw.skip(i + 1));
            if source.len() == 0 || target.len() == 0 {
                Err(MapErrorV::Missing(raw))
            } else if text::contains_v(target, "="@) {
                Err(MapErrorV::ManySeparators(raw))
            } else if !plain_v(source) || !plain_v(target) {
                Err(MapErrorV::BadName)
            } else if source == target {
                Err(MapErrorV::Identical(raw))
            } else if direct_v(map, source) is Some {
                Err(MapErrorV::Duplicate(source))
            } else {
                Ok(EntryV { source, target })
            }
        },
    }
}

/// The substitutions that the pieces write down; blank ones write none.
pub open spec fn read_v(pieces: Seq<Seq<char>>) -> Result<Seq<EntryV>, MapErrorV>
    decreases pieces.len(),
{
    if pieces.len() == 0 {
        Ok(Seq::empty())
    } else {
        match read_v(pieces.drop_last()) {
            Err(e) => Err(e),
            Ok(map) => {
                let raw = text::trim_v(pieces.last());
                if raw.len() == 0 {
                    Ok(map)
                } else {
                    match entry_v(map, raw) {
                        Err(e) => Err(e),
                        Ok(entry) => Ok(map.push(entry)),
                    }
                }
            },
        }
    }
}

/// How many sources are not among `visited`.
pub open spec fn left_v(map: Seq<EntryV>, visited: Seq<Seq<char>>) -> nat
    decreases map.len(),
{
    if map.len() == 0 {
        0
    } else {
        left_v(map.drop_last(), visited) + (if visited.contains(map.last().source) {
            0nat
        } else {
            1nat
        })
    }
}

pub proof fn left_drops(map: Seq<EntryV>, visited: Seq<Seq<char>>, id: Seq<char>)
    ensures
        left_v(map, visited.push(id)) <= left_v(map, visited),
        direct_v(map, id) is Some && !visited.contains(id) ==> left_v(map, visited.push(id))
            < left_v(map, visited),
    decreases map.len(),
{
    if map.len() > 0 {
        left_drops(map.drop_last(), visited, id);
        let s = map.last().source;
        assert(visited.push(id).contains(id)) by {
            assert(visited.push(id)[visited.len() as int] == id);
        }
        if visited.contains(s) {
            let i = choose|i: int| 0 <= i < visited.len() && visited[i] == s;
            assert(visited.push(id)[i] == s);
        }
    }
}

/// The name under which `current` is looked up: itself where it is a source,
/// else without its suffix.
pub open spec fn lookup_v(map: Seq<EntryV>, current: Seq<char>) -> Seq<char> {
    if direct_v(map, current) is Some {
        current
    } else {
        catalog::norm_v(current).0
    }
}

/// Where a walk through the substitutions ends.
#[verifier::ext_equal]
pub struct WalkV {
    pub model: Seq<char>,
    pub fast: bool,
    pub chain: Seq<Seq<char>>,
}

/// Follows the substitutions from `current` on, or gives the names of a cycle.
pub open spec fn walk_v(
    map: Seq<EntryV>,
    current: Seq<char>,
    fast: bool,
    chain: Seq<Seq<char>>,
    visited: Seq<Seq<char>>,
) -> Result<WalkV, Seq<Seq<char>>>
    decreases left_v(map, visited),
{
    let (base, has_fast) = catalog::norm_v(current);
    let lookup = lookup_v(map, current);
    match direct_v(map, lookup) {
        None => Ok(WalkV { model: base, fast: fast || has_fast, chain }),
        Some(target) => if visited.contains(lookup) {
            Err(chain.push(lookup))
        } else {
            let next = text::trim_v(target);
            proof {
                left_drops(map, visited, lookup);
            }
            walk_v(map, next, fast || has_fast, chain.push(next), visited.push(lookup))
        },
    }
}

/// What a requested model comes to, or the names of a cycle.
pub open spec fn try_resolve_v(map: Seq<EntryV>, id: Seq<char>) -> Result<
    ResolutionV,
    Seq<Seq<char>>,
> {
    let requested = text::trim_v(id);
    let (base, fast) = catalog::norm_v(requested);
    if base.len() == 0 {
        Ok(
            ResolutionV {
                requested,
                model: Seq::empty(),
                fast: false,
                mapped: false,
                chain: Seq::empty(),
            },
        )
    } else {
        match walk_v(map, requested, fast, seq![requested], Seq::empty()) {
            Err(chain) => Err(chain),
            Ok(end) => {
                let (model, target_fast) = catalog::norm_v(end.model);
                Ok(
                    ResolutionV {
                        requested,
                        model,
                        fast: end.fast || target_fast,
                        mapped: end.chain.len() > 1 || model != base,
                        chain: end.chain,
                    },
                )
            },
        }
    }
}

/// What a requested model comes to; itself where it leads into a cycle.
pub open spec fn resolve_v(map: Seq<EntryV>, id: Seq<char>) -> ResolutionV {
    match try_resolve_v(map, id) {
        Ok(r) => r,
        Err(_) => ResolutionV {
            requested: text::trim_v(id),
            model: catalog::norm_v(id).0,
            fast: catalog::norm_v(id).1,
            mapped: false,
            chain: seq![text::trim_v(id)],
        },
    }
}

/// The first cycle that a source among the first `n` leads into.
pub open spec fn cycle_v(map: Seq<EntryV>, n: int) -> Option<Seq<Seq<char>>>
    decreases n,
{
    if n <= 0 {
        None
    } else {
        match cycle_v(map, n - 1) {
            Some(chain) => Some(chain),
            None => match try_resolve_v(map, map[n - 1].source) {
                Err(chain) => Some(chain),
                Ok(_) => None,
            },
        }
    }
}

/// The substitutions that a text writes down.
pub open spec fn parse_v(value: Seq<char>) -> Result<Seq<EntryV>, MapErrorV> {
    match read_v(text::split_any_v(value, ",;\n\r"@)) {
        Err(e) => Err(e),
        Ok(map) => match cycle_v(map, map.len() as int) {
            Some(chain) => Err(MapErrorV::Cycle(chain)),
            None => Ok(map),
        },
    }
}

proof fn errors_stay(pieces: Seq<Seq<char>>, n: int)
    requires
        0 <= n <= pieces.len(),
    ensures
        read_v(pieces.take(n)) is Err ==> read_v(pieces) == read_v(pieces.take(n)),
    decreases pieces.len() - n,
{
    if n < pieces.len() {
        errors_stay(pieces, n + 1);
        assert(pieces.take(n + 1).drop_last() =~= pieces.take(n));
    } else {
        assert(pieces.take(n) =~= pieces);
    }
}

proof fn cycles_stay(map: Seq<EntryV>, n: int, m: int)
    requires
        0 <= n <= m,
    ensures
        cycle_v(map, n) is Some ==> cycle_v(map, m) == cycle_v(map, n),
    decreases m - n,
{
    if n < m {
        cycles_stay(map, n, m - 1);
    }
}

/// A list of substitutions, each source once.
#[derive(Debug)]
pub struct ModelMap {
    entries: Vec<Entry>,
}

fn find_entry(entries: &Vec<Entry>, id: &str) -> (r: Option<usize>)
    ensures
        match r {
            Some(i) => i < entries@.len() && direct_v(entries_v(entries@), id@) == Some(
                entries@[i as int].target@,
            ),
            None => direct_v(entries_v(entries@), id@) is None,
        },
{
    let ghost all = entries_v(entries@);
    let mut i: usize = entries.len();
    assert(all.take(i as int) =~= all);
    while i > 0
        invariant
            i <= entries@.len(),
            all == entries_v(entries@),
            direct_v(all, id@) == direct_v(all.take(i as int), id@),
        decreases i,
    {
        proof {
            assert(all.take(i as int).drop_last() =~= all.take(i - 1));
            assert(all.take(i as int).last() == entries@[i - 1]@);
        }
        if same(&entries[i - 1].source, id) {
            return Some(i - 1);
        }
        i -= 1;
    }
    assert(all.take(0).len() == 0);
    None
}

fn parse_entry(entries: &Vec<Entry>, raw: &str) -> (r: Result<Entry, MapError>)
    ensures
        match r {
            Ok(e) => entry_v(entries_v(entries@), raw@) == Ok::<EntryV, MapErrorV>(e@),
            Err(e) => entry_v(entries_v(entries@), raw@) == Err::<EntryV, MapErrorV>(e@),
        },
{
    let v = text::chars_of(raw);
    let eq = text::chars_of("=");
    proof {
        reveal_strlit("=");
    }
    match text::find_from(&v, &eq, 0) {
        None => Err(MapError::NoSeparator(text::owned(raw))),
        Some(i) => {
            proof {
                assert(raw@.take(i as int) =~= raw@.subrange(0, i as int));
            }
            let source = text::trim(&text::string_of(&v, 0, i));
            let target = text::trim(&text::rest_of(&v, i + 1));
            if source.as_str().is_empty() || target.as_str().is_empty() {
                Err(MapError::Missing(text::owned(raw)))
            } else if text::contains(&target, "=") {
                Err(MapError::ManySeparators(text::owned(raw)))
            } else if !plain(&source) || !plain(&target) {
                Err(MapError::BadName)
            } else if same(&source, &target) {
                Err(MapError::Identical(text::owned(raw)))
            } else if find_entry(entries, &source).is_some() {
                Err(MapError::Duplicate(source))
            } else {
                Ok(Entry { source, target })
            }
        },
    }
}

fn known_name(names: &Vec<String>, id: &str) -> (r: bool)
    ensures
        r == text::views(names@).contains(id@),
{
    let ghost all = text::views(names@);
    let mut i: usize = 0;
    while i < names.len()
        invariant
            i <= names@.len(),
            all == text::views(names@),
            forall|k: int| 0 <= k < i ==> all[k] != id@,
        decreases names@.len() - i,
    {
        assert(all[i as int] == names@[i as int]@);
        if same(&names[i], id) {
            return true;
        }
        i += 1;
    }
    false
}

fn push_name(names: &mut Vec<String>, id: &str)
    ensures
        text::views(final(names)@) == text::views(old(names)@).push(id@),
{
    let ghost before = names@;
    let id = text::owned(id);
    proof {
        assert(text::views(before.push(id)) =~= text::views(before).push(id@));
    }
    names.push(id);
}

impl ModelMap {
    pub closed spec fn view(&self) -> Seq<EntryV> {
        entries_v(self.entries@)
    }

    /// Reads substitutions `source=target`, with commas, semicolons or line
    /// ends between them.
    pub fn parse(value: &str) -> (r: Result<ModelMap, MapError>)
        ensures
            match r {
                Ok(m) => parse_v(value@) == Ok::<Seq<EntryV>, MapErrorV>(m@),
                Err(e) => parse_v(value@) == Err::<Seq<EntryV>, MapErrorV>(e@),
            },
    {
        let pieces = text::split_any(value, ",;\n\r");
        let ghost all = text::views(pieces@);
        let mut entries: Vec<Entry> = Vec::new();
        let mut i: usize = 0;
        assert(entries_v(entries@) =~= Seq::<EntryV>::empty());
        while i < pieces.len()
            invariant
                i <= pieces@.len(),
                all == text::views(pieces@),
                all == text::split_any_v(value@, ",;\n\r"@),
                read_v(all.take(i as int)) == Ok::<Seq<EntryV>, MapErrorV>(entries_v(entries@)),
            decreases pieces@.len() - i,
        {
            let raw = text::trim(&pieces[i]);
            proof {
                assert(all.take(i + 1).drop_last() =~= all.take(i as int));
                assert(all.take(i + 1).last() == pieces@[i as int]@);
                errors_stay(all, i + 1);
            }
            if !raw.as_str().is_empty() {
                match parse_entry(&entries, &raw) {
                    Err(e) => {
                        return Err(e);
                    },
                    Ok(entry) => {
                        proof {
                            assert(entries_v(entries@.push(entry)) =~= entries_v(entries@).push(
                                entry@,
                            ));
                        }
                        entries.push(entry);
                    },
                }
            }
            i += 1;
        }
        assert(all.take(i as int) =~= all);
        let map = ModelMap { entries };
        let mut k: usize = 0;
        while k < map.entries.len()
            invariant
                k <= map.entries@.len(),
                read_v(text::split_any_v(value@, ",;\n\r"@)) == Ok::<Seq<EntryV>, MapErrorV>(map@),
                map@ == entries_v(map.entries@),
                cycle_v(map@, k as int) is None,
            decreases map.entries@.len() - k,
        {
            proof {
                cycles_stay(map@, k + 1, map@.len() as int);
                assert(map@[k as int].source == map.entries@[k as int].source@);
            }
            match map.try_resolve(&map.entries[k].source) {
                Err(chain) => {
                    return Err(MapError::Cycle(chain));
                },
                Ok(_) => {},
            }
            k += 1;
        }
        Ok(map)
    }

    /// What a requested model comes to, or the names of a cycle.
    pub fn try_resolve(&self, requested: &str) -> (r: Result<Resolution, Vec<String>>)
        ensures
            match r {
                Ok(x) => try_resolve_v(self@, requested@) == Ok::<ResolutionV, Seq<Seq<char>>>(x@),
                Err(chain) => try_resolve_v(self@, requested@) == Err::<
                    ResolutionV,
                    Seq<Seq<char>>,
                >(text::views(chain@)),
            },
    {
        let ghost map = self@;
        let wanted = text::trim(requested);
        let (base_requested, wanted_fast) = normalize_id(&wanted);
        let mut fast = wanted_fast;
        if base_requested.as_str().is_empty() {
            let chain: Vec<String> = Vec::new();
            assert(text::views(chain@) =~= Seq::<Seq<char>>::empty());
            let none = String::new();
            assert(none@ =~= Seq::<char>::empty());
            return Ok(
                Resolution { requested: wanted, model: none, fast: false, mapped: false, chain },
            );
        }
        let mut current = text::owned(&wanted);
        let mut chain: Vec<String> = Vec::new();
        let mut visited: Vec<String> = Vec::new();
        assert(text::views(visited@) =~= Seq::<Seq<char>>::empty());
        push_name(&mut chain, &wanted);
        assert(text::views(chain@) =~= seq![wanted@]);
        let ghost whole = walk_v(map, wanted@, wanted_fast, seq![wanted@], Seq::empty());
        loop
            invariant_except_break
                walk_v(map, current@, fast, text::views(chain@), text::views(visited@)) == whole,
            invariant
                map == self@,
                wanted@ == text::trim_v(requested@),
                (base_requested@, wanted_fast) == catalog::norm_v(wanted@),
                base_requested@.len() > 0,
                whole == walk_v(map, wanted@, wanted_fast, seq![wanted@], Seq::empty()),
            ensures
                whole == Ok::<WalkV, Seq<Seq<char>>>(
                    WalkV { model: current@, fast, chain: text::views(chain@) },
                ),
            decreases left_v(map, text::views(visited@)),
        {
            let (base, has_fast) = normalize_id(&current);
            fast = fast || has_fast;
            let mut lookup = text::owned(&current);
            let mut at: Option<usize> = find_entry(&self.entries, &lookup);
            if at.is_none() {
                lookup = text::owned(&base);
                at = find_entry(&self.entries, &lookup);
            }
            proof {
                left_drops(map, text::views(visited@), lookup@);
            }
            match at {
                None => {
                    current = base;
                    break;
                },
                Some(i) => {
                    if known_name(&visited, &lookup) {
                        push_name(&mut chain, &lookup);
                        return Err(chain);
                    }
                    push_name(&mut visited, &lookup);
                    current = text::trim(&self.entries[i].target);
                    push_name(&mut chain, &current);
                },
            }
        }
        let (model, target_fast) = normalize_id(&current);
        let mapped = chain.len() > 1 || !same(&model, &base_requested);
        Ok(Resolution { requested: wanted, model, fast: fast || target_fast, mapped, chain })
    }

    /// What a requested model comes to; itself where it leads into a cycle.
    pub fn resolve(&self, requested: &str) -> (r: Resolution)
        ensures
            r@ == resolve_v(self@, requested@),
    {
        match self.try_resolve(requested) {
            Ok(r) => r,
            Err(_) => {
                let (model, fast) = normalize_id(requested);
                let mut chain: Vec<String> = Vec::new();
                push_name(&mut chain, &text::trim(requested));
                assert(text::views(chain@) =~= seq![text::trim_v(requested@)]);
                Resolution { requested: text::trim(requested), model, fast, mapped: false, chain }
            },
        }
    }

    /// The substitutions, in the order in which they were written.
    pub fn entries(&self) -> (r: &[Entry])
        ensures
            entries_v(r@) == self@,
    {
        self.entries.as_slice()
    }

    pub fn len(&self) -> (r: usize)
        ensures
            r == self@.len(),
    {
        self.entries.len()
    }

    pub fn is_empty(&self) -> (r: bool)
        ensures
            r == (self@.len() == 0),
    {
        self.entries.len() == 0
    }

    /// The substitutions in the order of their sources, as a text.
    pub fn stable_string(&self) -> (r: String)
        ensures
            r@ == stable_v(self@),
    {
        let sorted = sort_entries(&self.entries);
        let ghost all = entries_v(sorted@);
        let mut parts: Vec<String> = Vec::new();
        let mut i: usize = 0;
        while i < sorted.len()
            invariant
                i <= sorted@.len(),
                all == entries_v(sorted@),
                text::views(parts@) == written_v(all).take(i as int),
            decreases sorted@.len() - i,
        {
            let part = text::cat3(&sorted[i].source, "=", &sorted[i].target);
            proof {
                assert(written_v(all)[i as int] == part@);
                assert(written_v(all).take(i + 1) =~= written_v(all).take(i as int).push(part@));
            }
            push_name(&mut parts, &part);
            i += 1;
        }
        assert(written_v(all).take(i as int) =~= written_v(all));
        text::join(&parts, ",")
    }
}

impl Clone for ModelMap {
    fn clone(&self) -> (r: ModelMap)
        ensures
            r@ == self@,
    {
        let mut out: Vec<Entry> = Vec::new();
        let mut i: usize = 0;
        let ghost all = entries_v(self.entries@);
        while i < self.entries.len()
            invariant
                i <= self.entries@.len(),
                all == entries_v(self.entries@),
                entries_v(out@) == all.take(i as int),
            decreases self.entries@.len() - i,
        {
            let entry = self.entries[i].copy();
            proof {
                assert(entries_v(out@.push(entry)) =~= entries_v(out@).push(entry@));
                assert(all.take(i + 1) =~= all.take(i as int).push(all[i as int]));
            }
            out.push(entry);
            i += 1;
        }
        assert(all.take(i as int) =~= all);
        ModelMap { entries: out }
    }
}

impl Default for ModelMap {
    fn default() -> (r: ModelMap)
        ensures
            r@ == Seq::<EntryV>::empty(),
    {
        let entries: Vec<Entry> = Vec::new();
        assert(entries_v(entries@) =~= Seq::empty());
        ModelMap { entries }
    }
}

pub open spec fn sorted_entries_v(map: Seq<EntryV>) -> Seq<EntryV> {
    order::sorted_v(map, |a: EntryV, b: EntryV| text::less_v(a.source, b.source))
}

pub open spec fn written_v(map: Seq<EntryV>) -> Seq<Seq<char>> {
    map.map_values(|e: EntryV| e.source + "="@ + e.target)
}

/// The substitutions in the order of their sources, with commas between them.
pub open spec fn stable_v(map: Seq<EntryV>) -> Seq<char> {
    text::join_v(written_v(sorted_entries_v(map)), ","@)
}

fn sort_entries(entries: &Vec<Entry>) -> (r: Vec<Entry>)
    ensures
        entries_v(r@) == sorted_entries_v(entries_v(entries@)),
{
    let ghost before = |a: EntryV, b: EntryV| text::less_v(a.source, b.source);
    let ghost s = entries_v(entries@);
    let mut out: Vec<Entry> = Vec::new();
    let mut i: usize = 0;
    assert(entries_v(out@) =~= order::sorted_v(s.take(0), before));
    while i < entries.len()
        invariant
            i <= entries@.len(),
            s == entries_v(entries@),
            before == (|a: EntryV, b: EntryV| text::less_v(a.source, b.source)),
            entries_v(out@) == order::sorted_v(s.take(i as int), before),
        decreases entries@.len() - i,
    {
        let x = entries[i].copy();
        let mut j: usize = out.len();
        while j > 0 && text::less(&x.source, &out[j - 1].source)
            invariant
                j <= out@.len(),
                forall|k: int|
                    j <= k < out@.len() ==> text::less_v(x.source@, (#[trigger] out@[k]).source@),
            decreases j,
        {
            j -= 1;
        }
        proof {
            let t = entries_v(out@);
            assert forall|k: int| j <= k < t.len() implies before(x@, #[trigger] t[k]) by {
                assert(t[k] == out@[k]@);
            }
            assert(j > 0 ==> t[j - 1] == out@[j - 1]@);
            order::insert_at(t, x@, before, j as int);
            assert(s.take(i + 1).drop_last() =~= s.take(i as int));
            assert(s.take(i + 1).last() == x@);
            assert(entries_v(out@.insert(j as int, x)) =~= t.insert(j as int, x@));
        }
        out.insert(j, x);
        i += 1;
    }
    assert(s.take(i as int) =~= s);
    out
}

} // verus!
