//! The models that the proxy offers, and what is known of them.

use vstd::prelude::*;

use crate::provider::{kimi, Provider};
use crate::text;
use crate::text::same;

verus! {

/// A level of reasoning effort that a model offers.
#[derive(Debug, PartialEq, Eq)]
pub struct ReasoningEffort {
    pub value: String,
    pub label: String,
    pub description: String,
    pub default: bool,
}

/// The reasoning efforts that a model offers.
#[derive(Debug, PartialEq, Eq)]
pub struct ReasoningCapability {
    pub default_effort: String,
    pub efforts: Vec<ReasoningEffort>,
}

#[derive(Debug, PartialEq, Eq)]
pub struct Model {
    pub id: String,
    /// The name of the model at its provider.
    pub upstream_id: String,
    pub provider: Provider,
    pub display_name: String,
    pub description: String,
    pub context_window: u64,
    pub responses_lite: bool,
    pub reasoning: Option<ReasoningCapability>,
}

#[verifier::ext_equal]
pub struct EffortV {
    pub value: Seq<char>,
    pub label: Seq<char>,
    pub description: Seq<char>,
    pub default: bool,
}

#[verifier::ext_equal]
pub struct CapabilityV {
    pub default_effort: Seq<char>,
    pub efforts: Seq<EffortV>,
}

#[verifier::ext_equal]
pub struct ModelV {
    pub id: Seq<char>,
    pub upstream_id: Seq<char>,
    pub provider: Provider,
    pub display_name: Seq<char>,
    pub description: Seq<char>,
    pub context_window: u64,
    pub responses_lite: bool,
    pub reasoning: Option<CapabilityV>,
}

impl ReasoningEffort {
    pub open spec fn view(&self) -> EffortV {
        EffortV {
            value: self.value@,
            label: self.label@,
            description: self.description@,
            default: self.default,
        }
    }

    pub fn copy(&self) -> (r: ReasoningEffort)
        ensures
            r@ == self@,
    {
        ReasoningEffort {
            value: text::owned(&self.value),
            label: text::owned(&self.label),
            description: text::owned(&self.description),
            default: self.default,
        }
    }
}

pub open spec fn efforts_v(s: Seq<ReasoningEffort>) -> Seq<EffortV> {
    s.map_values(|e: ReasoningEffort| e@)
}

impl ReasoningCapability {
    pub open spec fn view(&self) -> CapabilityV {
        CapabilityV { default_effort: self.default_effort@, efforts: efforts_v(self.efforts@) }
    }

    pub fn copy(&self) -> (r: ReasoningCapability)
        ensures
            r@ == self@,
    {
        let mut efforts: Vec<ReasoningEffort> = Vec::new();
        let mut i: usize = 0;
        while i < self.efforts.len()
            invariant
                i <= self.efforts@.len(),
                efforts_v(efforts@) == efforts_v(self.efforts@).take(i as int),
            decreases self.efforts@.len() - i,
        {
            let effort = self.efforts[i].copy();
            proof {
                assert(efforts_v(efforts@.push(effort)) =~= efforts_v(efforts@).push(effort@));
                assert(efforts_v(self.efforts@).take(i + 1) =~= efforts_v(self.efforts@).take(
                    i as int,
                ).push(self.efforts@[i as int]@));
            }
            efforts.push(effort);
            i += 1;
        }
        assert(efforts_v(self.efforts@).take(i as int) =~= efforts_v(self.efforts@));
        ReasoningCapability { default_effort: text::owned(&self.default_effort), efforts }
    }
}

pub open spec fn reasoning_view(r: Option<ReasoningCapability>) -> Option<CapabilityV> {
    match r {
        Some(c) => Some(c@),
        None => None,
    }
}

pub fn copy_reasoning(r: &Option<ReasoningCapability>) -> (out: Option<ReasoningCapability>)
    ensures
        reasoning_view(out) == reasoning_view(*r),
{
    match r {
        Some(c) => Some(c.copy()),
        None => None,
    }
}

impl Model {
    pub open spec fn view(&self) -> ModelV {
        ModelV {
            id: self.id@,
            upstream_id: self.upstream_id@,
            provider: self.provider,
            display_name: self.display_name@,
            description: self.description@,
            context_window: self.context_window,
            responses_lite: self.responses_lite,
            reasoning: reasoning_view(self.reasoning),
        }
    }

    pub fn copy(&self) -> (r: Model)
        ensures
            r@ == self@,
    {
        Model {
            id: text::owned(&self.id),
            upstream_id: text::owned(&self.upstream_id),
            provider: self.provider,
            display_name: text::owned(&self.display_name),
            description: text::owned(&self.description),
            context_window: self.context_window,
            responses_lite: self.responses_lite,
            reasoning: copy_reasoning(&self.reasoning),
        }
    }
}

pub open spec fn effort_v(
    value: Seq<char>,
    label: Seq<char>,
    description: Seq<char>,
    default: Seq<char>,
) -> EffortV {
    EffortV { value, label, description, default: value == default }
}

/// The four efforts, `default` marked.
pub open spec fn reasoning_v(default: Seq<char>) -> CapabilityV {
    CapabilityV {
        default_effort: default,
        efforts: seq![
            effort_v("low"@, "Low"@, "Faster responses with lighter reasoning."@, default),
            effort_v("medium"@, "Medium"@, "Balanced reasoning for most tasks."@, default),
            effort_v("high"@, "High"@, "Deeper reasoning for complex tasks."@, default),
            effort_v("xhigh"@, "Extra high"@, "Maximum supported reasoning depth."@, default),
        ],
    }
}

fn effort(value: &str, label: &str, description: &str, default: &str) -> (r: ReasoningEffort)
    ensures
        r@ == effort_v(value@, label@, description@, default@),
{
    ReasoningEffort {
        value: text::owned(value),
        label: text::owned(label),
        description: text::owned(description),
        default: same(value, default),
    }
}

fn reasoning(default: &str) -> (r: ReasoningCapability)
    ensures
        r@ == reasoning_v(default@),
{
    let mut efforts: Vec<ReasoningEffort> = Vec::new();
    efforts.push(effort("low", "Low", "Faster responses with lighter reasoning.", default));
    efforts.push(effort("medium", "Medium", "Balanced reasoning for most tasks.", default));
    efforts.push(effort("high", "High", "Deeper reasoning for complex tasks.", default));
    efforts.push(effort("xhigh", "Extra high", "Maximum supported reasoning depth.", default));
    let out = ReasoningCapability { default_effort: text::owned(default), efforts };
    assert(out@.efforts =~= reasoning_v(default@).efforts);
    out
}

pub open spec fn codex_v(
    id: Seq<char>,
    name: Seq<char>,
    description: Seq<char>,
    context: u64,
    lite: bool,
    effort: Option<Seq<char>>,
) -> ModelV {
    ModelV {
        id,
        upstream_id: id,
        provider: Provider::Codex,
        display_name: name,
        description,
        context_window: context,
        responses_lite: lite,
        reasoning: match effort {
            Some(e) => Some(reasoning_v(e)),
            None => None,
        },
    }
}

pub open spec fn kimi_v(id: Seq<char>, upstream: Seq<char>, name: Seq<char>) -> ModelV {
    ModelV {
        id,
        upstream_id: upstream,
        provider: Provider::Kimi,
        display_name: name,
        description: "Kimi agentic coding model."@,
        context_window: 256_000,
        responses_lite: false,
        reasoning: None,
    }
}

/// What is known of the model `id`.
pub open spec fn known_v(id: Seq<char>) -> Option<ModelV> {
    if id == "gpt-5.6-sol"@ {
        Some(
            codex_v(
                id,
                "GPT-5.6 Sol"@,
                "Latest frontier agentic coding model."@,
                372_000,
                true,
                Some("low"@),
            ),
        )
    } else if id == "gpt-5.6-terra"@ {
        Some(
            codex_v(
                id,
                "GPT-5.6 Terra"@,
                "Balanced agentic coding model for everyday work."@,
                372_000,
                true,
                Some("medium"@),
            ),
        )
    } else if id == "gpt-5.6-luna"@ {
        Some(
            codex_v(
                id,
                "GPT-5.6 Luna"@,
                "Fast agentic coding model."@,
                372_000,
                true,
                Some("medium"@),
            ),
        )
    } else if id == "gpt-5.5"@ {
        Some(
            codex_v(
                id,
                "GPT-5.5"@,
                "Frontier model for complex coding and real-world work."@,
                272_000,
                false,
                Some("medium"@),
            ),
        )
    } else if id == "gpt-5.2"@ {
        Some(
            codex_v(
                id,
                "GPT-5.2"@,
                "Model optimized for professional work and long-running agents."@,
                272_000,
                false,
                None,
            ),
        )
    } else {
        match kimi::canonical_v(id) {
            Some(wire) => Some(
                kimi_v(
                    id,
                    wire,
                    if wire == "k3"@ {
                        "Kimi K3"@
                    } else {
                        "Kimi K2.6"@
                    },
                ),
            ),
            None => None,
        }
    }
}

/// The model `id`: what is known of it, or what its name alone tells.
pub open spec fn model_v(id: Seq<char>) -> ModelV {
    match known_v(id) {
        Some(m) => m,
        None => codex_v(
            id,
            id,
            Seq::empty(),
            272_000,
            text::starts_v(id, "gpt-5.6-"@),
            None,
        ),
    }
}

fn codex(
    id: &str,
    name: &str,
    description: &str,
    context: u64,
    lite: bool,
    effort: Option<&str>,
) -> (r: Model)
    ensures
        r@ == codex_v(id@, name@, description@, context, lite, crate::json::opt_str(effort)),
{
    Model {
        id: text::owned(id),
        upstream_id: text::owned(id),
        provider: Provider::Codex,
        display_name: text::owned(name),
        description: text::owned(description),
        context_window: context,
        responses_lite: lite,
        reasoning: match effort {
            Some(e) => Some(reasoning(e)),
            None => None,
        },
    }
}

fn known(id: &str) -> (r: Option<Model>)
    ensures
        match r {
            Some(m) => known_v(id@) == Some(m@),
            None => known_v(id@) is None,
        },
{
    if same(id, "gpt-5.6-sol") {
        Some(
            codex(
                id,
                "GPT-5.6 Sol",
                "Latest frontier agentic coding model.",
                372_000,
                true,
                Some("low"),
            ),
        )
    } else if same(id, "gpt-5.6-terra") {
        Some(
            codex(
                id,
                "GPT-5.6 Terra",
                "Balanced agentic coding model for everyday work.",
                372_000,
                true,
                Some("medium"),
            ),
        )
    } else if same(id, "gpt-5.6-luna") {
        Some(
            codex(
                id,
                "GPT-5.6 Luna",
                "Fast agentic coding model.",
                372_000,
                true,
                Some("medium"),
            ),
        )
    } else if same(id, "gpt-5.5") {
        Some(
            codex(
                id,
                "GPT-5.5",
                "Frontier model for complex coding and real-world work.",
                272_000,
                false,
                Some("medium"),
            ),
        )
    } else if same(id, "gpt-5.2") {
        Some(
            codex(
                id,
                "GPT-5.2",
                "Model optimized for professional work and long-running agents.",
                272_000,
                false,
                None,
            ),
        )
    } else {
        match kimi::canonical_model(id) {
            Some(wire) => Some(
                Model {
                    id: text::owned(id),
                    upstream_id: text::owned(wire),
                    provider: Provider::Kimi,
                    display_name: text::owned(
                        if same(wire, "k3") {
                            "Kimi K3"
                        } else {
                            "Kimi K2.6"
                        },
                    ),
                    description: text::owned("Kimi agentic coding model."),
                    context_window: 256_000,
                    responses_lite: false,
                    reasoning: None,
                },
            ),
            None => None,
        }
    }
}

fn model_named(id: &str) -> (r: Model)
    ensures
        r@ == model_v(id@),
{
    match known(id) {
        Some(m) => m,
        None => {
            proof {
                reveal_strlit("");
                assert(""@ =~= Seq::<char>::empty());
            }
            codex(id, id, "", 272_000, text::starts_with(id, "gpt-5.6-"), None)
        },
    }
}

/// Whether the model has a fast variant, served in the priority tier.
pub open spec fn fast_v(id: Seq<char>) -> bool {
    id == "gpt-5.6-sol"@ || id == "gpt-5.6-terra"@ || id == "gpt-5.6-luna"@ || id == "gpt-5.5"@
}

pub fn supports_fast(id: &str) -> (r: bool)
    ensures
        r == fast_v(id@),
{
    same(id, "gpt-5.6-sol") || same(id, "gpt-5.6-terra") || same(id, "gpt-5.6-luna") || same(
        id,
        "gpt-5.5",
    )
}

/// A model's name without space around it and without the suffix `-fast`, and
/// whether it had that suffix.
pub open spec fn norm_v(id: Seq<char>) -> (Seq<char>, bool) {
    let t = text::trim_v(id);
    match text::strip_end_v(t, "-fast"@) {
        Some(base) => if base.len() > 0 {
            (base, true)
        } else {
            (t, false)
        },
        None => (t, false),
    }
}

pub fn normalize_id(id: &str) -> (r: (String, bool))
    ensures
        (r.0@, r.1) == norm_v(id@),
{
    let t = text::trim(id);
    match text::strip_suffix(&t, "-fast") {
        Some(base) => if !base.as_str().is_empty() {
            (base, true)
        } else {
            (t, false)
        },
        None => (t, false),
    }
}

/// The models on offer, in order, each name once.
#[derive(Debug)]
pub struct Catalog {
    models: Vec<Model>,
}

pub open spec fn models_v(s: Seq<Model>) -> Seq<ModelV> {
    s.map_values(|m: Model| m@)
}

pub open spec fn has_v(models: Seq<ModelV>, id: Seq<char>) -> bool {
    exists|i: int| 0 <= i < models.len() && (#[trigger] models[i]).id == id
}

/// The models with the one named `raw`, unless it is there or has no name.
pub open spec fn add_v(models: Seq<ModelV>, raw: Seq<char>) -> Seq<ModelV> {
    let id = norm_v(raw).0;
    if id.len() == 0 || has_v(models, id) {
        models
    } else {
        models.push(model_v(id))
    }
}

pub open spec fn list_v(names: Seq<Seq<char>>) -> Seq<ModelV>
    decreases names.len(),
{
    if names.len() == 0 {
        Seq::empty()
    } else {
        add_v(list_v(names.drop_last()), names.last())
    }
}

/// The models named in a list with commas; those of the built-in list where it
/// is blank.
pub open spec fn catalog_v(csv: Seq<char>) -> Seq<ModelV> {
    list_v(
        text::split_v(
            if text::trim_v(csv).len() == 0 {
                "gpt-5.6-sol,gpt-5.6-terra,gpt-5.6-luna,gpt-5.5,gpt-5.2,kimi-for-coding"@
            } else {
                csv
            },
            ',',
        ),
    )
}

/// Each name occurs once, and each model is what its name says.
pub open spec fn models_ok(models: Seq<ModelV>) -> bool {
    &&& forall|i: int, j: int|
        0 <= i < j < models.len() ==> (#[trigger] models[i]).id != (#[trigger] models[j]).id
    &&& forall|i: int| 0 <= i < models.len() ==> #[trigger] models[i] == model_v(models[i].id)
}

proof fn add_ok(models: Seq<ModelV>, raw: Seq<char>)
    requires
        models_ok(models),
    ensures
        models_ok(add_v(models, raw)),
{
    let after = add_v(models, raw);
    let id = norm_v(raw).0;
    assert(model_v(id).id == id);
    assert forall|i: int, j: int| 0 <= i < j < after.len() implies (#[trigger] after[i]).id != (
    #[trigger] after[j]).id by {
        if j < models.len() {
            assert(models[i].id != models[j].id);
        } else {
            assert(models[i].id != id);
        }
    }
}

pub open spec fn ids_v(models: Seq<ModelV>) -> Seq<Seq<char>> {
    models.map_values(|m: ModelV| m.id)
}

impl Catalog {
    pub closed spec fn view(&self) -> Seq<ModelV> {
        models_v(self.models@)
    }

    #[verifier::type_invariant]
    spec fn ok(self) -> bool {
        models_ok(models_v(self.models@))
    }

    /// The catalog of the models named in `csv`.
    pub fn new(csv: &str) -> (r: Catalog)
        ensures
            r@ == catalog_v(csv@),
            models_ok(r@),
    {
        let blank = text::trim(csv).as_str().is_empty();
        let source = if blank {
            "gpt-5.6-sol,gpt-5.6-terra,gpt-5.6-luna,gpt-5.5,gpt-5.2,kimi-for-coding"
        } else {
            csv
        };
        let names = text::split(source, ',');
        let ghost all = text::views(names@);
        let mut models: Vec<Model> = Vec::new();
        let mut i: usize = 0;
        assert(models_v(models@) =~= list_v(all.take(0)));
        while i < names.len()
            invariant
                i <= names@.len(),
                all == text::views(names@),
                models_v(models@) == list_v(all.take(i as int)),
                models_ok(models_v(models@)),
            decreases names@.len() - i,
        {
            let (id, fast) = normalize_id(&names[i]);
            let ghost before = models_v(models@);
            proof {
                assert(all.take(i + 1).drop_last() =~= all.take(i as int));
                assert(all.take(i + 1).last() == names@[i as int]@);
                add_ok(before, names@[i as int]@);
            }
            if !id.as_str().is_empty() && find_model(&models, &id).is_none() {
                let model = model_named(&id);
                proof {
                    assert(models_v(models@.push(model)) =~= before.push(model@));
                }
                models.push(model);
            }
            i += 1;
        }
        assert(all.take(i as int) =~= all);
        Catalog { models }
    }

    /// The model that `id` names, and whether it is on offer or known.
    pub fn lookup(&self, id: &str) -> (r: (Model, bool))
        ensures
            r.0@ == model_v(norm_v(id@).0),
            r.1 == (has_v(self@, norm_v(id@).0) || known_v(norm_v(id@).0) is Some),
    {
        proof {
            use_type_invariant(self);
        }
        let (base, fast) = normalize_id(id);
        match find_model(&self.models, &base) {
            Some(i) => {
                let ghost all = models_v(self.models@);
                assert(all[i as int] == self.models@[i as int]@);
                (self.models[i].copy(), true)
            },
            None => match known(&base) {
                Some(model) => (model, true),
                None => (model_named(&base), false),
            },
        }
    }

    pub fn models(&self) -> (r: Vec<Model>)
        ensures
            models_v(r@) == self@,
            models_ok(self@),
    {
        proof {
            use_type_invariant(self);
        }
        let mut out: Vec<Model> = Vec::new();
        let mut i: usize = 0;
        let ghost all = models_v(self.models@);
        while i < self.models.len()
            invariant
                i <= self.models@.len(),
                all == models_v(self.models@),
                models_v(out@) == all.take(i as int),
            decreases self.models@.len() - i,
        {
            let model = self.models[i].copy();
            proof {
                assert(models_v(out@.push(model)) =~= models_v(out@).push(model@));
                assert(all.take(i + 1) =~= all.take(i as int).push(all[i as int]));
            }
            out.push(model);
            i += 1;
        }
        assert(all.take(i as int) =~= all);
        out
    }

    pub fn ids(&self) -> (r: Vec<String>)
        ensures
            text::views(r@) == ids_v(self@),
    {
        let mut out: Vec<String> = Vec::new();
        let mut i: usize = 0;
        let ghost all = ids_v(models_v(self.models@));
        while i < self.models.len()
            invariant
                i <= self.models@.len(),
                all == ids_v(models_v(self.models@)),
                text::views(out@) == all.take(i as int),
            decreases self.models@.len() - i,
        {
            let id = text::owned(&self.models[i].id);
            proof {
                assert(text::views(out@.push(id)) =~= text::views(out@).push(id@));
                assert(all.take(i + 1) =~= all.take(i as int).push(all[i as int]));
            }
            out.push(id);
            i += 1;
        }
        assert(all.take(i as int) =~= all);
        out
    }
}

impl Clone for Catalog {
    fn clone(&self) -> (r: Catalog)
        ensures
            r@ == self@,
    {
        Catalog { models: self.models() }
    }
}

impl Default for Catalog {
    fn default() -> (r: Catalog)
        ensures
            r@ == catalog_v(Seq::empty()),
    {
        proof {
            reveal_strlit("");
            assert(""@ =~= Seq::<char>::empty());
        }
        Catalog::new("")
    }
}

fn find_model(models: &Vec<Model>, id: &str) -> (r: Option<usize>)
    ensures
        match r {
            Some(i) => i < models@.len() && models@[i as int].id@ == id@ && has_v(
                models_v(models@),
                id@,
            ),
            None => !has_v(models_v(models@), id@),
        },
{
    let mut i: usize = 0;
    let ghost all = models_v(models@);
    while i < models.len()
        invariant
            i <= models@.len(),
            all == models_v(models@),
            forall|j: int| 0 <= j < i ==> (#[trigger] all[j]).id != id@,
        decreases models@.len() - i,
    {
        assert(all[i as int] == models@[i as int]@);
        if same(&models[i].id, id) {
            return Some(i);
        }
        i += 1;
    }
    None
}

/// The catalog never changes what a name stands for: the same name gives the
/// same model whatever is on offer.
pub proof fn lookup_is_by_name(a: Seq<ModelV>, b: Seq<ModelV>, i: int, j: int)
    requires
        models_ok(a),
        models_ok(b),
        0 <= i < a.len(),
        0 <= j < b.len(),
        a[i].id == b[j].id,
    ensures
        a[i] == b[j],
{
}

/// A name with the suffix `-fast` put on reads back as that name, fast.
pub proof fn fast_names_read_back(base: Seq<char>)
    requires
        base.len() > 0,
        !text::is_space(base[0]),
    ensures
        norm_v(base + "-fast"@) == (base, true),
{
    let id = base + "-fast"@;
    reveal_strlit("-fast");
    assert("-fast"@.last() == 't');
    assert(id.last() == 't');
    assert(id[0] == base[0]);
    assert(text::trim_v(id) == id);
    assert(id.skip(id.len() - 5) =~= "-fast"@);
    assert(id.take(id.len() - 5) =~= base);
}

/// A model is served under the name it goes by: Codex takes it as it is, and Kimi
/// by its name on the wire. A model of the GPT-5.6 family is of the Responses Lite
/// kind, and no other is.
pub proof fn models_are_served_under_their_names(id: Seq<char>)
    ensures
        ({
            let m = model_v(id);
            &&& m.id == id
            &&& m.provider == Provider::Kimi <==> kimi::canonical_v(id) is Some
            &&& m.provider == Provider::Codex ==> m.upstream_id == id
            &&& m.provider == Provider::Kimi ==> Some(m.upstream_id) == kimi::canonical_v(id)
            &&& m.responses_lite <==> text::starts_v(id, "gpt-5.6-"@)
            &&& fast_v(id) ==> m.provider == Provider::Codex
            &&& m.context_window > 0
        }),
{
    reveal_strlit("gpt-5.6-");
    reveal_strlit("gpt-5.6-sol");
    reveal_strlit("gpt-5.6-terra");
    reveal_strlit("gpt-5.6-luna");
    reveal_strlit("gpt-5.5");
    reveal_strlit("gpt-5.2");
    reveal_strlit("kimi-for-coding");
    reveal_strlit("kimi-k2.6");
    reveal_strlit("k2.6");
    reveal_strlit("kimi-k3");
    reveal_strlit("k3");
    let head = "gpt-5.6-"@;
    assert("gpt-5.6-sol"@.take(8) =~= head);
    assert("gpt-5.6-terra"@.take(8) =~= head);
    assert("gpt-5.6-luna"@.take(8) =~= head);
    assert("gpt-5.6-sol"@[0] == 'g' && "gpt-5.6-terra"@[0] == 'g' && "gpt-5.6-luna"@[0] == 'g');
    assert("gpt-5.5"@.len() == 7 && "gpt-5.5"@[0] == 'g' && "gpt-5.2"@.len() == 7 && "gpt-5.2"@[0]
        == 'g');
    assert("kimi-for-coding"@[0] == 'k' && "kimi-k2.6"@[0] == 'k' && "k2.6"@[0] == 'k'
        && "kimi-k3"@[0] == 'k' && "k3"@[0] == 'k');
    if text::starts_v(id, head) {
        assert(id.take(8)[0] == id[0]);
        assert(id[0] == 'g');
        assert(id.len() >= 8);
    }
}

/// The efforts of a model are the four that a client can ask for, and the one that
/// is its default is marked, and no other.
pub proof fn efforts_are_offered(id: Seq<char>)
    ensures
        model_v(id).reasoning matches Some(c) ==> {
            &&& c.efforts.len() == 4
            &&& c.efforts[0].value == "low"@
            &&& c.efforts[1].value == "medium"@
            &&& c.efforts[2].value == "high"@
            &&& c.efforts[3].value == "xhigh"@
            &&& forall|i: int|
                0 <= i < 4 ==> ((#[trigger] c.efforts[i]).default <==> c.efforts[i].value
                    == c.default_effort)
            &&& exists|i: int| 0 <= i < 4 && (#[trigger] c.efforts[i]).default
        },
{
    if let Some(c) = model_v(id).reasoning {
        assert(c.efforts[0].value == "low"@);
        assert(c.efforts[1].value == "medium"@);
        assert(c.default_effort == "low"@ || c.default_effort == "medium"@);
        assert(c.efforts[0].default || c.efforts[1].default);
    }
}

/// Every name in a list is on offer, once, without its suffix and with what is
/// known of it; the names before it stay where they are.
pub proof fn named_models_are_offered(names: Seq<Seq<char>>, raw: Seq<char>)
    ensures
        ({
            let (before, after) = (list_v(names), list_v(names.push(raw)));
            let id = norm_v(raw).0;
            &&& before.is_prefix_of(after)
            &&& id.len() > 0 ==> has_v(after, id)
            &&& id.len() > 0 && !has_v(before, id) ==> after.len() == before.len() + 1
                && after.last() == model_v(id)
            &&& id.len() == 0 || has_v(before, id) ==> after == before
        }),
{
    assert(names.push(raw).drop_last() =~= names);
    let (before, after) = (list_v(names), list_v(names.push(raw)));
    let id = norm_v(raw).0;
    if id.len() > 0 && !has_v(before, id) {
        assert(after[before.len() as int].id == id) by {
            models_are_served_under_their_names(id);
        }
    }
}

} // verus!
