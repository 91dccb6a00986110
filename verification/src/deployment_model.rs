//! Deployment models: the rules and emitters of each way to deploy.
use vstd::prelude::*;
use vstd::string::*;

use crate::optimizer::engine;
use crate::optimizer::engine::default_rules_as_optimizer_rules;
use crate::optimizer::trait_def;
use crate::optimizer::trait_def::{OptimizerRule, RuleInfo};
use crate::text;

verus! {

/// The name of a deployment model.
#[derive(Debug, PartialEq, Eq, Hash)]
pub struct DeploymentModelId(pub String);

impl View for DeploymentModelId {
    type V = Seq<char>;

    open spec fn view(&self) -> Seq<char> {
        self.0@
    }
}

impl Clone for DeploymentModelId {
    fn clone(&self) -> (r: DeploymentModelId)
        ensures
            r@ == self@,
    {
        DeploymentModelId(self.0.clone())
    }
}

impl DeploymentModelId {
    /// Collectors at edge, gateway and backend.
    pub fn asaplifecycle() -> (r: DeploymentModelId)
        ensures
            r@ == "asaplifecycle"@,
    {
        DeploymentModelId("asaplifecycle".to_owned())
    }

    /// A planner within the query backend.
    pub fn asapquery() -> (r: DeploymentModelId)
        ensures
            r@ == "asapquery"@,
    {
        DeploymentModelId("asapquery".to_owned())
    }

    /// A rewriter of DataFusion plans.
    pub fn asapfusion() -> (r: DeploymentModelId)
        ensures
            r@ == "asapfusion"@,
    {
        DeploymentModelId("asapfusion".to_owned())
    }

    /// The name.
    pub fn as_str(&self) -> (r: &str)
        ensures
            r@ == self@,
    {
        self.0.as_str()
    }
}

/// The names of the emitters that a deployment model uses.
#[derive(Debug)]
pub struct EmitterSet {
    pub emitters: Vec<String>,
}

impl View for EmitterSet {
    type V = Seq<Seq<char>>;

    open spec fn view(&self) -> Seq<Seq<char>> {
        text::texts(self.emitters@)
    }
}

impl Clone for EmitterSet {
    fn clone(&self) -> (r: EmitterSet)
        ensures
            r@ == self@,
    {
        EmitterSet { emitters: text::clone_texts(&self.emitters) }
    }
}

impl Default for EmitterSet {
    fn default() -> (r: EmitterSet)
        ensures
            r@ == Seq::<Seq<char>>::empty(),
    {
        EmitterSet { emitters: Vec::new() }
    }
}

impl EmitterSet {
    /// The emitters with these names.
    pub fn new(emitters: Vec<String>) -> (r: EmitterSet)
        ensures
            r@ == text::texts(emitters@),
    {
        EmitterSet { emitters }
    }

    /// Whether there is an emitter with a name.
    pub fn has(&self, name: &str) -> (r: bool)
        ensures
            r == self@.contains(name@),
    {
        text::contains(&self.emitters, name)
    }
}

/// A deployment model.
pub struct DeploymentModel {
    /// Its name.
    pub id: DeploymentModelId,
    /// The rules that its optimizer uses.
    pub rules: Vec<Box<dyn OptimizerRule>>,
    /// The emitters that it uses.
    pub emitters: EmitterSet,
}

/// What [`DeploymentModel`] holds.
#[verifier::ext_equal]
pub struct DeploymentView {
    pub id: Seq<char>,
    pub rules: Seq<RuleInfo>,
    pub emitters: Seq<Seq<char>>,
}

impl View for DeploymentModel {
    type V = DeploymentView;

    open spec fn view(&self) -> DeploymentView {
        DeploymentView {
            id: self.id@,
            rules: trait_def::rule_infos(self.rules@),
            emitters: self.emitters@,
        }
    }
}

/// The deployment model with collectors at edge, gateway and backend.
pub open spec fn lifecycle_model() -> DeploymentView {
    DeploymentView {
        id: "asaplifecycle"@,
        rules: engine::default_rule_infos(),
        emitters: seq![
            "opamp_edge_yaml"@,
            "streaming_config_json"@,
            "inference_config_json"@,
        ],
    }
}

impl DeploymentModel {
    /// Collectors at edge, gateway and backend, with all rewrite rules.
    pub fn asaplifecycle() -> (r: DeploymentModel)
        ensures
            r@ == lifecycle_model(),
    {
        let mut names: Vec<String> = Vec::new();
        names.push("opamp_edge_yaml".to_owned());
        names.push("streaming_config_json".to_owned());
        names.push("inference_config_json".to_owned());
        assert(text::texts(names@) =~= lifecycle_model().emitters);
        DeploymentModel {
            id: DeploymentModelId::asaplifecycle(),
            rules: default_rules_as_optimizer_rules(),
            emitters: EmitterSet::new(names),
        }
    }
}

/// The models that are known, each name once.
pub struct DeploymentModelRegistry {
    entries: Vec<DeploymentModel>,
}

spec fn models(s: Seq<DeploymentModel>) -> Seq<DeploymentView> {
    Seq::new(s.len(), |i: int| s[i]@)
}

/// Whether no name stands twice.
pub open spec fn distinct_ids(s: Seq<DeploymentView>) -> bool {
    forall|i: int, j: int| 0 <= i < j < s.len() ==> (#[trigger] s[i]).id != (#[trigger] s[j]).id
}

/// The model with a name.
pub open spec fn model_of(s: Seq<DeploymentView>, id: Seq<char>) -> Option<DeploymentView>
    decreases s.len(),
{
    if s.len() == 0 {
        None
    } else if s[0].id == id {
        Some(s[0])
    } else {
        model_of(s.drop_first(), id)
    }
}

/// The models with one more: in place of the one of its name, else at the end.
pub open spec fn with_model(s: Seq<DeploymentView>, m: DeploymentView) -> Seq<DeploymentView>
    decreases s.len(),
{
    if s.len() == 0 {
        seq![m]
    } else if s[0].id == m.id {
        seq![m] + s.drop_first()
    } else {
        seq![s[0]] + with_model(s.drop_first(), m)
    }
}

proof fn lemma_first_model(s: Seq<DeploymentView>, i: int, m: DeploymentView)
    requires
        0 <= i <= s.len(),
        forall|j: int| 0 <= j < i ==> (#[trigger] s[j]).id != m.id,
        i < s.len() ==> s[i].id == m.id,
    ensures
        i < s.len() ==> model_of(s, m.id) == Some(s[i]) && with_model(s, m) == s.update(i, m),
        i == s.len() ==> model_of(s, m.id) is None && with_model(s, m) == s.push(m),
    decreases s.len(),
{
    let rest = s.drop_first();
    if s.len() == 0 {
        assert(seq![m] =~= s.push(m));
    } else if s[0].id == m.id {
        assert(seq![m] + rest =~= s.update(0, m));
    } else {
        assert(i > 0);
        lemma_first_model(rest, i - 1, m);
        if i < s.len() {
            assert(seq![s[0]] + rest.update(i - 1, m) =~= s.update(i, m));
        } else {
            assert(seq![s[0]] + rest.push(m) =~= s.push(m));
        }
    }
}

proof fn lemma_find_model(s: Seq<DeploymentView>, id: Seq<char>) -> (i: int)
    ensures
        0 <= i <= s.len(),
        forall|j: int| 0 <= j < i ==> (#[trigger] s[j]).id != id,
        i < s.len() ==> s[i].id == id,
    decreases s.len(),
{
    if s.len() == 0 || s[0].id == id {
        0
    } else {
        let i = 1 + lemma_find_model(s.drop_first(), id);
        assert forall|j: int| 0 <= j < i implies (#[trigger] s[j]).id != id by {
            if j > 0 {
                assert(s[j] == s.drop_first()[j - 1]);
            }
        }
        i
    }
}

/// A model that was registered is found under its name; the others stay, and
/// no name stands twice.
pub proof fn law_register_then_lookup(
    s: Seq<DeploymentView>,
    m: DeploymentView,
    other: DeploymentView,
)
    requires
        distinct_ids(s),
    ensures
        model_of(with_model(s, m), m.id) == Some(m),
        other.id != m.id ==> model_of(with_model(s, m), other.id) == model_of(s, other.id),
        distinct_ids(with_model(s, m)),
{
    let i = lemma_find_model(s, m.id);
    lemma_first_model(s, i, m);
    let t = with_model(s, m);
    lemma_first_model(t, i, m);
    if other.id != m.id {
        let k = lemma_find_model(s, other.id);
        lemma_first_model(s, k, other);
        if k < s.len() {
            lemma_first_model(t, k, other);
        } else {
            lemma_first_model(t, t.len() as int, other);
        }
    }
}

impl View for DeploymentModelRegistry {
    type V = Seq<DeploymentView>;

    closed spec fn view(&self) -> Seq<DeploymentView> {
        models(self.entries@)
    }
}

impl Default for DeploymentModelRegistry {
    fn default() -> (r: DeploymentModelRegistry)
        ensures
            r@ == seq![lifecycle_model()],
            distinct_ids(r@),
    {
        let mut r = DeploymentModelRegistry::empty();
        let _ = r.register(DeploymentModel::asaplifecycle());
        r
    }
}

impl DeploymentModelRegistry {
    #[verifier::type_invariant]
    spec fn well_formed(self) -> bool {
        distinct_ids(models(self.entries@))
    }

    /// No models.
    pub fn empty() -> (r: DeploymentModelRegistry)
        ensures
            r@ == Seq::<DeploymentView>::empty(),
            distinct_ids(r@),
    {
        let entries: Vec<DeploymentModel> = Vec::new();
        assert(models(entries@) =~= Seq::<DeploymentView>::empty());
        DeploymentModelRegistry { entries }
    }

    fn find(&self, id: &DeploymentModelId) -> (r: usize)
        ensures
            r <= self@.len(),
            forall|j: int| 0 <= j < r ==> (#[trigger] self@[j]).id != id@,
            r < self@.len() ==> self@[r as int].id == id@,
    {
        for i in 0..self.entries.len()
            invariant
                forall|j: int| 0 <= j < i ==> (#[trigger] self@[j]).id != id@,
        {
            if text::same(self.entries[i].id.as_str(), id.as_str()) {
                return i;
            }
        }
        self.entries.len()
    }

    /// Register a model in place of any other of its name, which is returned.
    pub fn register(&mut self, model: DeploymentModel) -> (r: Option<DeploymentModel>)
        ensures
            final(self)@ == with_model(old(self)@, model@),
            distinct_ids(old(self)@),
            distinct_ids(final(self)@),
            model_of(final(self)@, model@.id) == Some(model@),
            forall|id: Seq<char>|
                id != model@.id ==> #[trigger] model_of(final(self)@, id) == model_of(
                    old(self)@,
                    id,
                ),
            match r {
                Some(m) => model_of(old(self)@, model@.id) == Some(m@),
                None => model_of(old(self)@, model@.id) is None,
            },
    {
        proof {
            use_type_invariant(&*self);
        }
        let i = self.find(&model.id);
        let ghost before = self@;
        proof {
            lemma_first_model(before, i as int, model@);
            law_register_then_lookup(before, model@, model@);
            assert forall|id: Seq<char>| id != model@.id implies #[trigger] model_of(
                with_model(before, model@),
                id,
            ) == model_of(before, id) by {
                law_register_then_lookup(before, model@, DeploymentView { id, ..model@ });
            }
        }
        let mut entries: Vec<DeploymentModel> = Vec::new();
        std::mem::swap(&mut entries, &mut self.entries);
        let mut prior: Option<DeploymentModel> = None;
        if i < entries.len() {
            let replaced = entries.remove(i);
            entries.insert(i, model);
            prior = Some(replaced);
            assert(models(entries@) =~= before.update(i as int, model@));
        } else {
            entries.push(model);
            assert(models(entries@) =~= before.push(model@));
        }
        self.entries = entries;
        prior
    }

    /// The model with a name.
    pub fn lookup(&self, id: &DeploymentModelId) -> (r: Option<&DeploymentModel>)
        ensures
            distinct_ids(self@),
            match r {
                Some(m) => model_of(self@, id@) == Some(m@),
                None => model_of(self@, id@) is None,
            },
    {
        proof {
            use_type_invariant(self);
        }
        let i = self.find(id);
        proof {
            lemma_first_model(
                self@,
                i as int,
                DeploymentView { id: id@, rules: Seq::empty(), emitters: Seq::empty() },
            );
        }
        if i < self.entries.len() {
            Some(&self.entries[i])
        } else {
            None
        }
    }

    /// Whether there is a model with a name.
    pub fn contains(&self, id: &DeploymentModelId) -> (r: bool)
        ensures
            distinct_ids(self@),
            r == (model_of(self@, id@) is Some),
    {
        self.lookup(id).is_some()
    }

    /// The names of the models, each once.
    pub fn ids(&self) -> (r: Vec<&DeploymentModelId>)
        ensures
            r@.len() == self@.len(),
            forall|i: int| 0 <= i < r@.len() ==> (#[trigger] r@[i])@ == self@[i].id,
            distinct_ids(self@),
            forall|i: int, j: int|
                0 <= i < j < r@.len() ==> (#[trigger] r@[i])@ != (#[trigger] r@[j])@,
    {
        proof {
            use_type_invariant(self);
        }
        let mut out: Vec<&DeploymentModelId> = Vec::new();
        for i in 0..self.entries.len()
            invariant
                out@.len() == i,
                forall|j: int| 0 <= j < i ==> (#[trigger] out@[j])@ == self@[j].id,
        {
            out.push(&self.entries[i].id);
        }
        out
    }
}

} // verus!
