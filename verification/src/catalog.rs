//! The models that can be asked: providers, models and the thinking settings they offer.

use vstd::prelude::*;

use crate::strings::same;

verus! {

/// How much a model is asked to think.
#[derive(Debug, PartialEq, Eq)]
#[allow(inconsistent_fields)]
pub enum Thinking {
    /// A named effort.
    Effort {
        /// The effort.
        value: String,
    },
    /// On or off.
    Toggle {
        /// Whether it is on.
        value: bool,
    },
    /// A number of tokens.
    Budget {
        /// The number.
        tokens: u32,
    },
}

impl Clone for Thinking {
    fn clone(&self) -> (r: Self)
        ensures
            r == *self,
    {
        match self {
            Thinking::Effort { value } => Thinking::Effort { value: value.clone() },
            Thinking::Toggle { value } => Thinking::Toggle { value: *value },
            Thinking::Budget { tokens } => Thinking::Budget { tokens: *tokens },
        }
    }
}

/// Copies an optional thinking setting.
pub fn copy_thinking(thinking: &Option<Thinking>) -> (r: Option<Thinking>)
    ensures
        r == *thinking,
{
    match thinking {
        Some(thinking) => Some(thinking.clone()),
        None => None,
    }
}

/// The model that was chosen, and how it is to think.
#[derive(Debug, PartialEq, Eq)]
pub struct ModelSelection {
    /// The provider's id.
    pub provider: String,
    /// The model's id.
    pub model: String,
    /// The thinking setting.
    pub reasoning: Option<Thinking>,
}

impl Clone for ModelSelection {
    fn clone(&self) -> (r: Self)
        ensures
            r == *self,
    {
        ModelSelection {
            provider: self.provider.clone(),
            model: self.model.clone(),
            reasoning: copy_thinking(&self.reasoning),
        }
    }
}

/// A provider that can be chosen.
#[derive(Debug, PartialEq, Eq)]
pub struct ProviderChoice {
    /// Its id.
    pub id: String,
    /// Its name.
    pub label: String,
    /// How it is reached.
    pub route_label: String,
    /// How many models it offers.
    pub model_count: usize,
}

/// A model that can be chosen.
#[derive(Debug, PartialEq, Eq)]
pub struct ModelChoice {
    /// Its id.
    pub id: String,
    /// Its name.
    pub label: String,
    /// What it can do, in short.
    pub badges: String,
    /// Whether it is an old one.
    pub dated: bool,
    /// Whether it offers thinking settings.
    pub thinks: bool,
}

/// A thinking setting that a model offers.
#[derive(Debug, PartialEq, Eq)]
pub struct ThinkingChoice {
    /// The setting.
    pub thinking: Thinking,
    /// Its name.
    pub label: String,
    /// Whether it asks for a number.
    pub needs_input: bool,
    /// Why it cannot be chosen, when it cannot.
    pub refusal: Option<String>,
}

/// A model of the catalog.
#[derive(Debug, PartialEq, Eq)]
pub struct CatalogModel {
    /// The provider's id.
    pub provider: String,
    /// The model's id.
    pub id: String,
    /// The most tokens it answers with, where the catalog says.
    pub output_limit: Option<u64>,
    /// The most tokens it reads, where the catalog says.
    pub context_limit: Option<u64>,
    /// What it costs, in words, where the catalog says.
    pub cost: Option<String>,
    /// The thinking settings it offers.
    pub thinking: Vec<ThinkingChoice>,
}

/// The catalog as it was last loaded.
#[derive(Debug, PartialEq, Eq)]
pub struct CatalogState {
    /// Where it came from and how large it is, in words.
    pub summary: String,
    /// The providers that can be reached.
    pub providers: Vec<ProviderChoice>,
    /// The models.
    pub models: Vec<CatalogModel>,
}

/// Which of the models from `from` on is the first with the given ids.
pub open spec fn model_place(
    models: Seq<CatalogModel>,
    provider: Seq<char>,
    id: Seq<char>,
    from: nat,
) -> Option<nat>
    decreases models.len() - from,
{
    if from >= models.len() {
        None
    } else if models[from as int].provider@ == provider && models[from as int].id@ == id {
        Some(from)
    } else {
        model_place(models, provider, id, from + 1)
    }
}

/// The place found holds the model.
pub proof fn lemma_model_place(
    models: Seq<CatalogModel>,
    provider: Seq<char>,
    id: Seq<char>,
    from: nat,
)
    ensures
        model_place(models, provider, id, from) matches Some(i) ==> from <= i < models.len()
            && models[i as int].provider@ == provider && models[i as int].id@ == id,
    decreases models.len() - from,
{
    if from < models.len() {
        lemma_model_place(models, provider, id, from + 1);
    }
}

impl CatalogState {
    /// The model with the given ids.
    pub open spec fn entry(&self, provider: Seq<char>, id: Seq<char>) -> Option<CatalogModel> {
        match model_place(self.models@, provider, id, 0) {
            Some(i) => Some(self.models@[i as int]),
            None => None,
        }
    }

    /// Finds a model by its provider's id and its own.
    #[must_use]
    pub fn model(&self, provider: &str, id: &str) -> (r: Option<&CatalogModel>)
        ensures
            match r {
                Some(model) => self.entry(provider@, id@) == Some(*model),
                None => self.entry(provider@, id@) is None,
            },
    {
        let mut i: usize = 0;
        while i < self.models.len()
            invariant
                i <= self.models@.len(),
                model_place(self.models@, provider@, id@, 0) == model_place(
                    self.models@,
                    provider@,
                    id@,
                    i as nat,
                ),
            decreases self.models@.len() - i,
        {
            if same(self.models[i].provider.as_str(), provider) && same(
                self.models[i].id.as_str(),
                id,
            ) {
                return Some(&self.models[i]);
            }
            i += 1;
        }
        None
    }
}

} // verus!
