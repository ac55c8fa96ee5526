//! The model catalog: a record type for one model variant, the fixed table of
//! known variants, and lookup by identifier.
//!
//! A variant's stable identifier is its external-repository name (see
//! [`PhiModel::model_name`]); the identifiers of the catalog entries are
//! pairwise distinct ([`lemma_catalog_ids_unique`]).

use crate::strutil::{
    join_strings, join_strs, spec_contains_sub, spec_dec_digits, spec_join, str_contains, str_eq,
    u64_to_string,
};
use vstd::prelude::*;
use vstd::string::StringExecFns;

verus! {

/// Failure of a catalog lookup.
#[derive(Clone, Copy, Debug, PartialEq, Eq, Structural)]
pub enum CatalogError {
    /// No catalog entry carries the requested identifier.
    NotFound,
}

/// The model family a variant belongs to.  The family determines the stable
/// identifier and the external repository of a variant; the remaining
/// metadata lives in the [`PhiModel`] record.
#[derive(Clone, Copy, Debug, PartialEq, Eq, Structural)]
pub enum PhiFamily {
    Phi1,
    Phi1_5,
    Phi2,
    Phi3,
    Phi3_5,
    Phi4,
    Phi4Mini,
}

/// Upper bound on the parameter count of a variant, in tenths of a billion.
/// It keeps every byte estimate derived from the count (twice the count in
/// gigabytes, and twice that again for disk) within `u64`.
pub const MAX_PARAMETER_TENTHS: u64 = 40000000000;

/// One model variant: a family tag plus its descriptive metadata.
///
/// The parameter count is kept in tenths of a billion (`27` stands for 2.7
/// billion parameters), so that sizing arithmetic stays exact.
#[derive(Debug)]
pub struct PhiModel {
    /// Family this variant belongs to; determines identifier and repository.
    pub family: PhiFamily,
    /// Display form of the parameter count, e.g. `"2.7B"`.
    pub parameters: String,
    /// Context window length in tokens.
    pub context_length: usize,
    /// Capability tags, e.g. `"coding"` or `"math"`.
    pub specialization: Vec<String>,
    /// Parameter count in tenths of a billion.
    pub parameter_count_tenths: u64,
}

/// Mathematical image of a [`PhiModel`].
#[verifier::ext_equal]
pub struct PhiModelView {
    pub family: PhiFamily,
    pub parameters: Seq<char>,
    pub context_length: nat,
    pub specialization: Seq<Seq<char>>,
    pub parameter_count_tenths: nat,
}

impl View for PhiModel {
    type V = PhiModelView;

    open spec fn view(&self) -> PhiModelView {
        PhiModelView {
            family: self.family,
            parameters: self.parameters@,
            context_length: self.context_length as nat,
            specialization: self.specialization.deep_view(),
            parameter_count_tenths: self.parameter_count_tenths as nat,
        }
    }
}

impl DeepView for PhiModel {
    type V = PhiModelView;

    open spec fn deep_view(&self) -> PhiModelView {
        self.view()
    }
}

impl PhiModelView {
    /// Well-formedness of a variant: positive parameter count within the
    /// machine bound, and a positive context window.
    pub open spec fn wf(self) -> bool {
        &&& 0 < self.parameter_count_tenths <= MAX_PARAMETER_TENTHS
        &&& 0 < self.context_length
    }
}

/// The stable identifier of every variant of family `f`.
pub open spec fn spec_model_name(f: PhiFamily) -> Seq<char> {
    match f {
        PhiFamily::Phi1 => "microsoft/phi-1"@,
        PhiFamily::Phi1_5 => "microsoft/phi-1_5"@,
        PhiFamily::Phi2 => "microsoft/phi-2"@,
        PhiFamily::Phi3 => "microsoft/Phi-3-mini-4k-instruct"@,
        PhiFamily::Phi3_5 => "microsoft/Phi-3.5-mini-instruct"@,
        PhiFamily::Phi4 => "microsoft/Phi-4"@,
        PhiFamily::Phi4Mini => "microsoft/Phi-4-mini"@,
    }
}

/// The external repository that artifacts of family `f` are fetched from.
/// Families without a published artifact repository fall back to the Phi-2
/// repository.
pub open spec fn spec_hf_repo(f: PhiFamily) -> Seq<char> {
    match f {
        PhiFamily::Phi2 => "microsoft/phi-2"@,
        PhiFamily::Phi3 => "microsoft/Phi-3-mini-4k-instruct-onnx"@,
        PhiFamily::Phi3_5 => "microsoft/Phi-3.5-mini-instruct-onnx"@,
        PhiFamily::Phi4 => "microsoft/Phi-4-onnx"@,
        PhiFamily::Phi4Mini => "microsoft/Phi-4-mini-onnx"@,
        _ => "microsoft/phi-2"@,
    }
}

/// Whether some tag in `tags` mentions coding work.
pub open spec fn spec_supports_coding(tags: Seq<Seq<char>>) -> bool {
    exists|i: int|
        0 <= i < tags.len() && (spec_contains_sub(#[trigger] tags[i], "coding"@)
            || spec_contains_sub(tags[i], "code"@))
}

/// Whether some tag in `tags` mentions mathematical work.
pub open spec fn spec_supports_math(tags: Seq<Seq<char>>) -> bool {
    exists|i: int|
        0 <= i < tags.len() && (spec_contains_sub(#[trigger] tags[i], "math"@)
            || spec_contains_sub(tags[i], "logic"@))
}

/// The recommended use cases of every variant of family `f`.
pub open spec fn spec_use_cases(f: PhiFamily) -> Seq<Seq<char>> {
    match f {
        PhiFamily::Phi2 => seq![
            "Code completion"@,
            "Text generation"@,
            "Q&A systems"@,
            "Educational tools"@,
        ],
        PhiFamily::Phi3 => seq![
            "Code generation"@,
            "Math problem solving"@,
            "Reasoning tasks"@,
            "Edge deployment"@,
            "Real-time applications"@,
        ],
        PhiFamily::Phi3_5 => seq![
            "Multilingual applications"@,
            "Long-context understanding"@,
            "Complex reasoning"@,
            "International deployment"@,
        ],
        PhiFamily::Phi4 => seq![
            "Advanced reasoning"@,
            "Complex mathematics"@,
            "Logic puzzles"@,
            "Research assistance"@,
            "High-accuracy applications"@,
        ],
        PhiFamily::Phi4Mini => seq![
            "Instruction following"@,
            "Task automation"@,
            "Natural conversation"@,
            "Efficient deployment"@,
        ],
        _ => seq!["General language tasks"@, "Prototyping"@],
    }
}

/// The formatted information block about a variant: identifier, display
/// parameter count, context length, tags and use cases.
pub open spec fn spec_display_info(v: PhiModelView) -> Seq<char> {
    "🤖 "@ + spec_model_name(v.family) + " ("@ + v.parameters + " parameters)\n📏 Context: "@
        + spec_dec_digits(v.context_length) + " tokens\n🎯 Specializations: "@ + spec_join(
        v.specialization,
        ", "@,
    ) + "\n💡 Use cases: "@ + spec_join(spec_use_cases(v.family), ", "@)
}

/// The fixed table of known variants, in catalog order.
pub open spec fn spec_catalog() -> Seq<PhiModelView> {
    seq![
        PhiModelView {
            family: PhiFamily::Phi2,
            parameters: "2.7B"@,
            context_length: 2048,
            specialization: seq!["language comprehension"@, "reasoning"@, "code generation"@],
            parameter_count_tenths: 27,
        },
        PhiModelView {
            family: PhiFamily::Phi3,
            parameters: "3.8B"@,
            context_length: 4096,
            specialization: seq!["coding"@, "math"@, "reasoning"@, "on-device capable"@],
            parameter_count_tenths: 38,
        },
        PhiModelView {
            family: PhiFamily::Phi3_5,
            parameters: "3.8B"@,
            context_length: 131072,
            specialization: seq!["multilingual"@, "general performance"@, "enhanced reasoning"@],
            parameter_count_tenths: 38,
        },
        PhiModelView {
            family: PhiFamily::Phi4,
            parameters: "14B"@,
            context_length: 16384,
            specialization: seq![
                "complex reasoning"@,
                "mathematics"@,
                "logic"@,
                "state-of-the-art SLM"@,
            ],
            parameter_count_tenths: 140,
        },
        PhiModelView {
            family: PhiFamily::Phi4Mini,
            parameters: "3.8B"@,
            context_length: 8192,
            specialization: seq![
                "instruction following"@,
                "reasoning"@,
                "natural language"@,
            ],
            parameter_count_tenths: 38,
        },
    ]
}

/// The identifiers of the catalog entries are pairwise distinct: every
/// catalog identifier names exactly one variant.
pub proof fn lemma_catalog_ids_unique()
    ensures
        forall|i: int, j: int|
            0 <= i < j < spec_catalog().len() ==> spec_model_name(
                #[trigger] spec_catalog()[i].family,
            ) != spec_model_name(#[trigger] spec_catalog()[j].family),
{
    reveal_strlit("microsoft/phi-2");
    reveal_strlit("microsoft/Phi-3-mini-4k-instruct");
    reveal_strlit("microsoft/Phi-3.5-mini-instruct");
    reveal_strlit("microsoft/Phi-4");
    reveal_strlit("microsoft/Phi-4-mini");
    assert(spec_model_name(PhiFamily::Phi2)[10] != spec_model_name(PhiFamily::Phi3)[10]);
    assert(spec_model_name(PhiFamily::Phi2)[10] != spec_model_name(PhiFamily::Phi3_5)[10]);
    assert(spec_model_name(PhiFamily::Phi2)[10] != spec_model_name(PhiFamily::Phi4)[10]);
    assert(spec_model_name(PhiFamily::Phi2)[10] != spec_model_name(PhiFamily::Phi4Mini)[10]);
    assert(spec_model_name(PhiFamily::Phi3)[15] != spec_model_name(PhiFamily::Phi3_5)[15]);
    assert(spec_model_name(PhiFamily::Phi3)[14] != spec_model_name(PhiFamily::Phi4)[14]);
    assert(spec_model_name(PhiFamily::Phi3)[14] != spec_model_name(PhiFamily::Phi4Mini)[14]);
    assert(spec_model_name(PhiFamily::Phi3_5)[14] != spec_model_name(PhiFamily::Phi4)[14]);
    assert(spec_model_name(PhiFamily::Phi3_5)[14] != spec_model_name(PhiFamily::Phi4Mini)[14]);
    assert(spec_model_name(PhiFamily::Phi4).len() != spec_model_name(PhiFamily::Phi4Mini).len());
    assert(spec_model_name(PhiFamily::Phi2) != spec_model_name(PhiFamily::Phi3));
    assert(spec_model_name(PhiFamily::Phi2) != spec_model_name(PhiFamily::Phi3_5));
    assert(spec_model_name(PhiFamily::Phi2) != spec_model_name(PhiFamily::Phi4));
    assert(spec_model_name(PhiFamily::Phi2) != spec_model_name(PhiFamily::Phi4Mini));
    assert(spec_model_name(PhiFamily::Phi3) != spec_model_name(PhiFamily::Phi3_5));
    assert(spec_model_name(PhiFamily::Phi3) != spec_model_name(PhiFamily::Phi4));
    assert(spec_model_name(PhiFamily::Phi3) != spec_model_name(PhiFamily::Phi4Mini));
    assert(spec_model_name(PhiFamily::Phi3_5) != spec_model_name(PhiFamily::Phi4));
    assert(spec_model_name(PhiFamily::Phi3_5) != spec_model_name(PhiFamily::Phi4Mini));
    assert(spec_model_name(PhiFamily::Phi4) != spec_model_name(PhiFamily::Phi4Mini));
    assert forall|i: int, j: int|
        0 <= i < j < spec_catalog().len() implies spec_model_name(
        #[trigger] spec_catalog()[i].family,
    ) != spec_model_name(#[trigger] spec_catalog()[j].family) by {
        let fi = spec_catalog()[i].family;
        let fj = spec_catalog()[j].family;
        assert(fi != fj);
    }
}

impl PhiModel {
    /// Well-formedness of this variant (see [`PhiModelView::wf`]).
    pub open spec fn wf(&self) -> bool {
        self@.wf()
    }

    /// The stable identifier of this variant, used for naming its cached
    /// artifact.
    pub fn model_name(&self) -> (r: &'static str)
        ensures
            r@ == spec_model_name(self.family),
    {
        match self.family {
            PhiFamily::Phi1 => "microsoft/phi-1",
            PhiFamily::Phi1_5 => "microsoft/phi-1_5",
            PhiFamily::Phi2 => "microsoft/phi-2",
            PhiFamily::Phi3 => "microsoft/Phi-3-mini-4k-instruct",
            PhiFamily::Phi3_5 => "microsoft/Phi-3.5-mini-instruct",
            PhiFamily::Phi4 => "microsoft/Phi-4",
            PhiFamily::Phi4Mini => "microsoft/Phi-4-mini",
        }
    }

    /// The external repository this variant's artifact is fetched from.
    pub fn hf_repo(&self) -> (r: &'static str)
        ensures
            r@ == spec_hf_repo(self.family),
    {
        match self.family {
            PhiFamily::Phi2 => "microsoft/phi-2",
            PhiFamily::Phi3 => "microsoft/Phi-3-mini-4k-instruct-onnx",
            PhiFamily::Phi3_5 => "microsoft/Phi-3.5-mini-instruct-onnx",
            PhiFamily::Phi4 => "microsoft/Phi-4-onnx",
            PhiFamily::Phi4Mini => "microsoft/Phi-4-mini-onnx",
            _ => "microsoft/phi-2",
        }
    }

    /// Context window length in tokens.
    pub fn context_length(&self) -> (r: usize)
        ensures
            r == self.context_length,
    {
        self.context_length
    }

    /// The capability tags of this variant.
    pub fn specializations(&self) -> (r: &Vec<String>)
        ensures
            r == &self.specialization,
    {
        &self.specialization
    }

    /// Whether the variant is small enough for on-device deployment
    /// (at most four billion parameters).
    pub fn is_edge_suitable(&self) -> (r: bool)
        ensures
            r == (self.parameter_count_tenths <= 40),
    {
        self.parameter_count_tenths <= 40
    }

    /// Whether some capability tag mentions coding work.
    pub fn supports_coding(&self) -> (r: bool)
        ensures
            r == spec_supports_coding(self@.specialization),
    {
        let n = self.specialization.len();
        for i in 0..n
            invariant
                n == self.specialization.len(),
                forall|j: int|
                    0 <= j < i ==> !(spec_contains_sub(
                        #[trigger] self@.specialization[j],
                        "coding"@,
                    ) || spec_contains_sub(self@.specialization[j], "code"@)),
        {
            let tag = &self.specialization[i];
            assert(self@.specialization[i as int] == tag@);
            if str_contains(tag.as_str(), "coding") || str_contains(tag.as_str(), "code") {
                return true;
            }
        }
        false
    }

    /// Whether some capability tag mentions mathematical work.
    pub fn supports_math(&self) -> (r: bool)
        ensures
            r == spec_supports_math(self@.specialization),
    {
        let n = self.specialization.len();
        for i in 0..n
            invariant
                n == self.specialization.len(),
                forall|j: int|
                    0 <= j < i ==> !(spec_contains_sub(#[trigger] self@.specialization[j], "math"@)
                        || spec_contains_sub(self@.specialization[j], "logic"@)),
        {
            let tag = &self.specialization[i];
            assert(self@.specialization[i as int] == tag@);
            if str_contains(tag.as_str(), "math") || str_contains(tag.as_str(), "logic") {
                return true;
            }
        }
        false
    }
}

impl PhiModel {
    /// The recommended use cases of this variant.
    pub fn recommended_use_cases(&self) -> (r: Vec<&'static str>)
        ensures
            r.deep_view() == spec_use_cases(self.family),
    {
        let r: Vec<&'static str> = match self.family {
            PhiFamily::Phi2 => vec![
                "Code completion",
                "Text generation",
                "Q&A systems",
                "Educational tools",
            ],
            PhiFamily::Phi3 => vec![
                "Code generation",
                "Math problem solving",
                "Reasoning tasks",
                "Edge deployment",
                "Real-time applications",
            ],
            PhiFamily::Phi3_5 => vec![
                "Multilingual applications",
                "Long-context understanding",
                "Complex reasoning",
                "International deployment",
            ],
            PhiFamily::Phi4 => vec![
                "Advanced reasoning",
                "Complex mathematics",
                "Logic puzzles",
                "Research assistance",
                "High-accuracy applications",
            ],
            PhiFamily::Phi4Mini => vec![
                "Instruction following",
                "Task automation",
                "Natural conversation",
                "Efficient deployment",
            ],
            _ => vec!["General language tasks", "Prototyping"],
        };
        proof {
            assert(r.deep_view() =~~= spec_use_cases(self.family));
        }
        r
    }

    /// Formats the variant's information block: identifier, display
    /// parameter count, context length, tags and use cases.
    pub fn display_info(&self) -> (r: String)
        ensures
            r@ == spec_display_info(self@),
    {
        let mut s = String::new();
        s.append("🤖 ");
        s.append(self.model_name());
        s.append(" (");
        s.append(self.parameters.as_str());
        s.append(" parameters)\n📏 Context: ");
        let ctx = u64_to_string(self.context_length as u64);
        s.append(ctx.as_str());
        s.append(" tokens\n🎯 Specializations: ");
        let tags = join_strings(&self.specialization, ", ");
        s.append(tags.as_str());
        s.append("\n💡 Use cases: ");
        let cases = self.recommended_use_cases();
        let cases_joined = join_strs(&cases, ", ");
        s.append(cases_joined.as_str());
        proof {
            assert(s@ =~= spec_display_info(self@));
        }
        s
    }

    /// All known variants, in a fixed order that is stable across calls.
    pub fn available_models() -> (r: Vec<PhiModel>)
        ensures
            r.deep_view() == spec_catalog(),
    {
        let mut models: Vec<PhiModel> = Vec::new();

        let mut tags: Vec<String> = Vec::new();
        tags.push("language comprehension".to_owned());
        tags.push("reasoning".to_owned());
        tags.push("code generation".to_owned());
        models.push(
            PhiModel {
                family: PhiFamily::Phi2,
                parameters: "2.7B".to_owned(),
                context_length: 2048,
                specialization: tags,
                parameter_count_tenths: 27,
            },
        );

        let mut tags: Vec<String> = Vec::new();
        tags.push("coding".to_owned());
        tags.push("math".to_owned());
        tags.push("reasoning".to_owned());
        tags.push("on-device capable".to_owned());
        models.push(
            PhiModel {
                family: PhiFamily::Phi3,
                parameters: "3.8B".to_owned(),
                context_length: 4096,
                specialization: tags,
                parameter_count_tenths: 38,
            },
        );

        let mut tags: Vec<String> = Vec::new();
        tags.push("multilingual".to_owned());
        tags.push("general performance".to_owned());
        tags.push("enhanced reasoning".to_owned());
        models.push(
            PhiModel {
                family: PhiFamily::Phi3_5,
                parameters: "3.8B".to_owned(),
                context_length: 131072,
                specialization: tags,
                parameter_count_tenths: 38,
            },
        );

        let mut tags: Vec<String> = Vec::new();
        tags.push("complex reasoning".to_owned());
        tags.push("mathematics".to_owned());
        tags.push("logic".to_owned());
        tags.push("state-of-the-art SLM".to_owned());
        models.push(
            PhiModel {
                family: PhiFamily::Phi4,
                parameters: "14B".to_owned(),
                context_length: 16384,
                specialization: tags,
                parameter_count_tenths: 140,
            },
        );

        let mut tags: Vec<String> = Vec::new();
        tags.push("instruction following".to_owned());
        tags.push("reasoning".to_owned());
        tags.push("natural language".to_owned());
        models.push(
            PhiModel {
                family: PhiFamily::Phi4Mini,
                parameters: "3.8B".to_owned(),
                context_length: 8192,
                specialization: tags,
                parameter_count_tenths: 38,
            },
        );

        proof {
            assert(models.deep_view() =~~= spec_catalog());
        }
        models
    }

    /// Looks up the catalog entry whose identifier equals `id`; unknown
    /// identifiers are reported as [`CatalogError::NotFound`].
    pub fn by_id(id: &str) -> (r: Result<PhiModel, CatalogError>)
        ensures
            match r {
                Ok(m) => {
                    &&& spec_catalog().contains(m@)
                    &&& spec_model_name(m@.family) == id@
                    &&& m@.wf()
                },
                Err(e) => {
                    &&& e == CatalogError::NotFound
                    &&& forall|i: int|
                        0 <= i < spec_catalog().len() ==> spec_model_name(
                            #[trigger] spec_catalog()[i].family,
                        ) != id@
                },
            },
    {
        let models = Self::available_models();
        let n = models.len();
        assert(n == spec_catalog().len());
        for i in 0..n
            invariant
                n == models.len(),
                models.deep_view() == spec_catalog(),
                forall|j: int|
                    0 <= j < i ==> spec_model_name(#[trigger] spec_catalog()[j].family) != id@,
        {
            proof {
                assert(models.deep_view()[i as int] == models@[i as int]@);
            }
            if str_eq(models[i].model_name(), id) {
                let m = models[i].clone();
                proof {
                    assert(spec_catalog()[i as int] == m@);
                    assert(spec_catalog().contains(m@));
                }
                return Ok(m);
            }
        }
        Err(CatalogError::NotFound)
    }
}

impl Clone for PhiModel {
    /// Field-wise copy of the variant.
    fn clone(&self) -> (r: Self)
        ensures
            r@ == self@,
    {
        let mut tags: Vec<String> = Vec::new();
        let n = self.specialization.len();
        for i in 0..n
            invariant
                n == self.specialization.len(),
                tags.len() == i,
                forall|j: int| 0 <= j < i ==> tags@[j]@ == self.specialization@[j]@,
        {
            tags.push(self.specialization[i].clone());
        }
        let r = PhiModel {
            family: self.family,
            parameters: self.parameters.clone(),
            context_length: self.context_length,
            specialization: tags,
            parameter_count_tenths: self.parameter_count_tenths,
        };
        proof {
            assert(r@.specialization =~~= self@.specialization);
            assert(r@ =~~= self@);
        }
        r
    }
}

} // verus!
