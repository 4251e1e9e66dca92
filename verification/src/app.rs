//! The application document and the change of its image tag.

use vstd::prelude::*;
use serde_json::Value;

verus! {

/// One name/value override of a Helm source.
#[derive(Debug)]
pub struct Parameter {
    pub name: String,
    pub value: String,
}

/// What a `Parameter` is in contracts.
pub struct ParameterView {
    pub name: Seq<char>,
    pub value: Seq<char>,
}

impl View for Parameter {
    type V = ParameterView;

    open spec fn view(&self) -> ParameterView {
        ParameterView { name: self.name@, value: self.value@ }
    }
}

/// The name of the parameter that carries the image tag.
pub open spec fn image_tag_name() -> Seq<char> {
    "image.tag"@
}

/// The parameter that sets the image tag to `tag`.
pub open spec fn image_tag_parameter(tag: Seq<char>) -> ParameterView {
    ParameterView { name: image_tag_name(), value: tag }
}

/// `i` is the position of the first parameter named `image.tag`.
pub open spec fn is_first_image_tag(parameters: Seq<ParameterView>, i: int) -> bool {
    &&& 0 <= i < parameters.len()
    &&& parameters[i].name == image_tag_name()
    &&& forall|j: int| 0 <= j < i ==> (#[trigger] parameters[j]).name != image_tag_name()
}

/// Whether some parameter is named `image.tag`.
pub open spec fn has_image_tag(parameters: Seq<ParameterView>) -> bool {
    exists|i: int| is_first_image_tag(parameters, i)
}

/// The position of the first parameter named `image.tag`, where there is one.
pub open spec fn first_image_tag(parameters: Seq<ParameterView>) -> int {
    choose|i: int| is_first_image_tag(parameters, i)
}

/// A parameter sequence after the image tag was set: the first parameter
/// named `image.tag` gets the new value, and where there is none, one is
/// added at the end.
pub open spec fn parameters_with_image_tag(
    parameters: Seq<ParameterView>,
    tag: Seq<char>,
) -> Seq<ParameterView> {
    if has_image_tag(parameters) {
        parameters.update(first_image_tag(parameters), image_tag_parameter(tag))
    } else {
        parameters.push(image_tag_parameter(tag))
    }
}

/// The parameters of a vector, each as it stands in contracts.
pub open spec fn parameter_views(parameters: Seq<Parameter>) -> Seq<ParameterView> {
    parameters.map_values(|p: Parameter| p@)
}

/// The position that `is_first_image_tag` describes is the only one, so it
/// is the one that `first_image_tag` names.
pub proof fn lemma_first_image_tag_is(parameters: Seq<ParameterView>, i: int)
    requires
        is_first_image_tag(parameters, i),
    ensures
        has_image_tag(parameters),
        first_image_tag(parameters) == i,
{
    let k = first_image_tag(parameters);
    assert(is_first_image_tag(parameters, k));
    if k < i {
        assert(parameters[k].name != image_tag_name());
    } else if i < k {
        assert(parameters[i].name != image_tag_name());
    }
}

/// Where no parameter is named `image.tag`, none is the first of that name.
pub proof fn lemma_no_image_tag(parameters: Seq<ParameterView>)
    requires
        forall|j: int| 0 <= j < parameters.len() ==> (#[trigger] parameters[j]).name != image_tag_name(),
    ensures
        !has_image_tag(parameters),
{
    if has_image_tag(parameters) {
        let k = first_image_tag(parameters);
        assert(parameters[k].name != image_tag_name());
    }
}

/// Sets the image tag in a parameter sequence.
pub fn set_image_tag(parameters: &mut Vec<Parameter>, image_tag: &String)
    ensures
        parameter_views(final(parameters)@) == parameters_with_image_tag(
            parameter_views(old(parameters)@),
            image_tag@,
        ),
{
    let key = "image.tag".to_owned();
    let ghost before = parameter_views(parameters@);
    let mut i: usize = 0;
    while i < parameters.len()
        invariant
            i <= parameters.len(),
            key@ == image_tag_name(),
            *parameters == *old(parameters),
            before == parameter_views(parameters@),
            forall|j: int| 0 <= j < i ==> (#[trigger] before[j]).name != image_tag_name(),
        decreases parameters.len() - i,
    {
        if parameters[i].name == key {
            parameters[i].value = image_tag.clone();
            proof {
                lemma_first_image_tag_is(before, i as int);
                assert(parameter_views(parameters@) =~= before.update(
                    i as int,
                    image_tag_parameter(image_tag@),
                ));
            }
            return;
        }
        i += 1;
    }
    parameters.push(Parameter { name: key, value: image_tag.clone() });
    proof {
        lemma_no_image_tag(before);
        assert(parameter_views(parameters@) =~= before.push(image_tag_parameter(image_tag@)));
    }
}

/// The Helm overrides of a source: value files and parameters.
#[derive(Debug)]
pub struct Helm {
    pub value_files: Option<Vec<String>>,
    pub parameters: Option<Vec<Parameter>>,
    /// The members of the block that are not named above.
    pub extra: serde_json::Map<String, Value>,
}

/// What a `Helm` block is in contracts.
pub struct HelmView {
    pub value_files: Option<Seq<Seq<char>>>,
    pub parameters: Option<Seq<ParameterView>>,
    pub extra: serde_json::Map<String, Value>,
}

impl View for Helm {
    type V = HelmView;

    open spec fn view(&self) -> HelmView {
        HelmView {
            value_files: match self.value_files {
                Some(files) => Some(files@.map_values(|f: String| f@)),
                None => None,
            },
            parameters: match self.parameters {
                Some(parameters) => Some(parameter_views(parameters@)),
                None => None,
            },
            extra: self.extra,
        }
    }
}

impl HelmView {
    /// The block after the image tag was set: a missing parameter sequence
    /// becomes the one parameter `image.tag`; everything else stays.
    pub open spec fn with_image_tag(self, tag: Seq<char>) -> HelmView {
        HelmView {
            parameters: Some(
                match self.parameters {
                    Some(parameters) => parameters_with_image_tag(parameters, tag),
                    None => seq![image_tag_parameter(tag)],
                },
            ),
            ..self
        }
    }
}

impl Helm {
    /// Sets the image tag among the parameters of this block.
    pub fn add_image_tag(&mut self, image_tag: &String)
        ensures
            final(self)@ == old(self)@.with_image_tag(image_tag@),
    {
        match &mut self.parameters {
            Some(parameters) => {
                set_image_tag(parameters, image_tag);
            },
            None => {
                let mut parameters: Vec<Parameter> = Vec::new();
                parameters.push(Parameter { name: "image.tag".to_owned(), value: image_tag.clone() });
                proof {
                    assert(parameter_views(parameters@) =~= seq![image_tag_parameter(image_tag@)]);
                }
                self.parameters = Some(parameters);
            },
        }
    }
}

/// One input of a deployment.
#[derive(Debug)]
pub struct Source {
    pub repo_url: String,
    pub path: Option<String>,
    pub target_revision: Option<String>,
    pub helm: Option<Helm>,
    pub reference: Option<String>,
    /// The members of the source that are not named above.
    pub extra: serde_json::Map<String, Value>,
}

/// What a `Source` is in contracts.
pub struct SourceView {
    pub repo_url: Seq<char>,
    pub path: Option<Seq<char>>,
    pub target_revision: Option<Seq<char>>,
    pub helm: Option<HelmView>,
    pub reference: Option<Seq<char>>,
    pub extra: serde_json::Map<String, Value>,
}

/// An optional string as it stands in contracts.
pub open spec fn optional_text(text: Option<String>) -> Option<Seq<char>> {
    match text {
        Some(t) => Some(t@),
        None => None,
    }
}

impl View for Source {
    type V = SourceView;

    open spec fn view(&self) -> SourceView {
        SourceView {
            repo_url: self.repo_url@,
            path: optional_text(self.path),
            target_revision: optional_text(self.target_revision),
            helm: match self.helm {
                Some(helm) => Some(helm@),
                None => None,
            },
            reference: optional_text(self.reference),
            extra: self.extra,
        }
    }
}

impl SourceView {
    /// The source after the image tag was set: its Helm block, where it has
    /// one, carries the tag; a source without one stays as it is.
    pub open spec fn with_image_tag(self, tag: Seq<char>) -> SourceView {
        SourceView {
            helm: match self.helm {
                Some(helm) => Some(helm.with_image_tag(tag)),
                None => None,
            },
            ..self
        }
    }
}

impl Source {
    /// Sets the image tag in the Helm block of this source, if it has one.
    pub fn add_image_tag(&mut self, image_tag: &String)
        ensures
            final(self)@ == old(self)@.with_image_tag(image_tag@),
    {
        match &mut self.helm {
            Some(helm) => {
                helm.add_image_tag(image_tag);
            },
            None => {},
        }
    }
}

/// The desired state of an application.
#[derive(Debug)]
pub struct Spec {
    pub sources: Vec<Source>,
    pub destination: Value,
    pub project: String,
    pub sync_policy: Value,
}

/// What a `Spec` is in contracts.
pub struct SpecView {
    pub sources: Seq<SourceView>,
    pub destination: Value,
    pub project: Seq<char>,
    pub sync_policy: Value,
}

/// The sources of a vector, each as it stands in contracts.
pub open spec fn source_views(sources: Seq<Source>) -> Seq<SourceView> {
    sources.map_values(|s: Source| s@)
}

impl View for Spec {
    type V = SpecView;

    open spec fn view(&self) -> SpecView {
        SpecView {
            sources: source_views(self.sources@),
            destination: self.destination,
            project: self.project@,
            sync_policy: self.sync_policy,
        }
    }
}

/// An application document as the controller holds it.
#[derive(Debug)]
pub struct Application {
    pub metadata: Value,
    pub spec: Spec,
    pub status: Option<Value>,
}

/// What an `Application` is in contracts.
pub struct ApplicationView {
    pub metadata: Value,
    pub spec: SpecView,
    pub status: Option<Value>,
}

impl View for Application {
    type V = ApplicationView;

    open spec fn view(&self) -> ApplicationView {
        ApplicationView { metadata: self.metadata, spec: self.spec@, status: self.status }
    }
}

impl ApplicationView {
    /// The document after the image tag was set in every source, in order.
    /// Nothing but the sources differs.
    pub open spec fn with_image_tag(self, tag: Seq<char>) -> ApplicationView {
        ApplicationView {
            spec: SpecView {
                sources: self.spec.sources.map_values(|s: SourceView| s.with_image_tag(tag)),
                ..self.spec
            },
            ..self
        }
    }
}

impl Application {
    /// Sets the parameter `image.tag` to `image_tag` in every source that has
    /// a Helm block, and leaves the rest of the document as it is.
    pub fn add_image_tag(&mut self, image_tag: String)
        ensures
            final(self)@ == old(self)@.with_image_tag(image_tag@),
    {
        let ghost before = source_views(self.spec.sources@);
        let mut i: usize = 0;
        while i < self.spec.sources.len()
            invariant
                i <= self.spec.sources.len(),
                before == source_views(old(self).spec.sources@),
                self.metadata == old(self).metadata,
                self.status == old(self).status,
                self.spec.destination == old(self).spec.destination,
                self.spec.project == old(self).spec.project,
                self.spec.sync_policy == old(self).spec.sync_policy,
                self.spec.sources.len() == before.len(),
                forall|j: int|
                    0 <= j < i ==> (#[trigger] self.spec.sources@[j])@ == before[j].with_image_tag(
                        image_tag@,
                    ),
                forall|j: int|
                    i <= j < before.len() ==> (#[trigger] self.spec.sources@[j])@ == before[j],
            decreases self.spec.sources.len() - i,
        {
            self.spec.sources[i].add_image_tag(&image_tag);
            i += 1;
        }
        proof {
            assert(source_views(self.spec.sources@) =~= before.map_values(
                |s: SourceView| s.with_image_tag(image_tag@),
            ));
        }
    }
}

/// A parameter named `image.tag` at any position means that there is a first
/// one, at that position or before it.
pub proof fn lemma_image_tag_found(parameters: Seq<ParameterView>, i: int)
    requires
        0 <= i < parameters.len(),
        parameters[i].name == image_tag_name(),
    ensures
        has_image_tag(parameters),
        0 <= first_image_tag(parameters) <= i,
    decreases i,
{
    if exists|j: int| 0 <= j < i && (#[trigger] parameters[j]).name == image_tag_name() {
        let j = choose|j: int| 0 <= j < i && (#[trigger] parameters[j]).name == image_tag_name();
        lemma_image_tag_found(parameters, j);
    } else {
        lemma_first_image_tag_is(parameters, i);
    }
}

/// Setting the image tag makes `image.tag` a parameter with the new value.
/// An update keeps the length of the sequence and every other entry; an
/// insertion keeps every entry and adds one at the end.
pub proof fn lemma_parameters_with_image_tag(parameters: Seq<ParameterView>, tag: Seq<char>)
    ensures
        ({
            let after = parameters_with_image_tag(parameters, tag);
            let at = first_image_tag(after);
            &&& has_image_tag(after)
            &&& after[at] == image_tag_parameter(tag)
            &&& forall|j: int| 0 <= j < parameters.len() && j != at ==> after[j] == parameters[j]
            &&& has_image_tag(parameters) ==> at == first_image_tag(parameters) && after.len()
                == parameters.len()
            &&& !has_image_tag(parameters) ==> at == parameters.len() && after.len()
                == parameters.len() + 1
        }),
{
    let after = parameters_with_image_tag(parameters, tag);
    if has_image_tag(parameters) {
        let k = first_image_tag(parameters);
        assert(is_first_image_tag(parameters, k));
        assert(is_first_image_tag(after, k));
        lemma_first_image_tag_is(after, k);
    } else {
        assert forall|j: int| 0 <= j < parameters.len() implies (#[trigger] parameters[j]).name
            != image_tag_name() by {
            if parameters[j].name == image_tag_name() {
                lemma_image_tag_found(parameters, j);
            }
        }
        assert(is_first_image_tag(after, parameters.len() as int));
        lemma_first_image_tag_is(after, parameters.len() as int);
    }
}

/// Setting the same image tag a second time changes nothing.
pub proof fn lemma_parameters_idempotent(parameters: Seq<ParameterView>, tag: Seq<char>)
    ensures
        parameters_with_image_tag(parameters_with_image_tag(parameters, tag), tag)
            == parameters_with_image_tag(parameters, tag),
{
    let once = parameters_with_image_tag(parameters, tag);
    lemma_parameters_with_image_tag(parameters, tag);
    assert(once.update(first_image_tag(once), image_tag_parameter(tag)) =~= once);
}

/// Whether no two parameters of the sequence have the same name.
pub open spec fn names_unique(parameters: Seq<ParameterView>) -> bool {
    forall|i: int, j: int|
        0 <= i < j < parameters.len() ==> (#[trigger] parameters[i]).name != (
        #[trigger] parameters[j]).name
}

/// Setting the image tag keeps parameter names unique.
pub proof fn lemma_names_stay_unique(parameters: Seq<ParameterView>, tag: Seq<char>)
    requires
        names_unique(parameters),
    ensures
        names_unique(parameters_with_image_tag(parameters, tag)),
{
    let after = parameters_with_image_tag(parameters, tag);
    lemma_parameters_with_image_tag(parameters, tag);
    let at = first_image_tag(after);
    assert(is_first_image_tag(after, at));
    assert forall|i: int, j: int| 0 <= i < j < after.len() implies (#[trigger] after[i]).name != (
    #[trigger] after[j]).name by {
        if has_image_tag(parameters) {
            assert(is_first_image_tag(parameters, at));
            assert(after[i].name == parameters[i].name);
            assert(after[j].name == parameters[j].name);
        } else {
            if j == at {
                assert(after[i].name != image_tag_name());
            } else {
                assert(after[i] == parameters[i]);
                assert(after[j] == parameters[j]);
            }
        }
    }
}

/// Applying the same image tag twice gives the document that applying it
/// once gives.
pub proof fn lemma_add_image_tag_idempotent(document: ApplicationView, tag: Seq<char>)
    ensures
        document.with_image_tag(tag).with_image_tag(tag) == document.with_image_tag(tag),
{
    let once = document.with_image_tag(tag);
    let twice = once.with_image_tag(tag);
    assert forall|i: int| 0 <= i < once.spec.sources.len() implies twice.spec.sources[i]
        == once.spec.sources[i] by {
        match document.spec.sources[i].helm {
            Some(helm) => {
                match helm.parameters {
                    Some(parameters) => {
                        lemma_parameters_idempotent(parameters, tag);
                    },
                    None => {
                        let one = seq![image_tag_parameter(tag)];
                        assert(is_first_image_tag(one, 0));
                        lemma_first_image_tag_is(one, 0);
                        assert(one.update(0, image_tag_parameter(tag)) =~= one);
                    },
                }
            },
            None => {},
        }
    }
    assert(twice.spec.sources =~= once.spec.sources);
}

/// Setting the image tag changes nothing but the parameters of Helm blocks:
/// metadata, status, destination, project and sync policy stay, the sources
/// stay as many and in their order, and each source keeps its repository,
/// path, revision and reference, has a Helm block exactly if it had one, and
/// keeps the value files of that block. Members that the schema does not
/// name stay with their source and their block.
pub proof fn lemma_other_fields_kept(document: ApplicationView, tag: Seq<char>)
    ensures
        ({
            let after = document.with_image_tag(tag);
            &&& after.metadata == document.metadata
            &&& after.status == document.status
            &&& after.spec.destination == document.spec.destination
            &&& after.spec.project == document.spec.project
            &&& after.spec.sync_policy == document.spec.sync_policy
            &&& after.spec.sources.len() == document.spec.sources.len()
            &&& forall|i: int|
                0 <= i < document.spec.sources.len() ==> {
                    let old_source = document.spec.sources[i];
                    let new_source = #[trigger] after.spec.sources[i];
                    &&& new_source.repo_url == old_source.repo_url
                    &&& new_source.path == old_source.path
                    &&& new_source.target_revision == old_source.target_revision
                    &&& new_source.reference == old_source.reference
                    &&& new_source.extra == old_source.extra
                    &&& new_source.helm is Some <==> old_source.helm is Some
                    &&& old_source.helm matches Some(helm) ==> {
                        &&& new_source.helm->0.value_files == helm.value_files
                        &&& new_source.helm->0.extra == helm.extra
                    }
                }
        }),
{
}

/// In the changed document every source with a Helm block has a parameter
/// sequence whose first parameter named `image.tag` holds the new tag;
/// every parameter that was there before and is not that one is unchanged
/// and at its old position.
pub proof fn lemma_image_tag_set(document: ApplicationView, tag: Seq<char>, i: int)
    requires
        0 <= i < document.spec.sources.len(),
        document.spec.sources[i].helm is Some,
    ensures
        ({
            let before = document.spec.sources[i].helm->0.parameters;
            let helm = document.with_image_tag(tag).spec.sources[i].helm;
            &&& helm matches Some(h) && h.parameters matches Some(after) && {
                &&& has_image_tag(after)
                &&& after[first_image_tag(after)] == image_tag_parameter(tag)
                &&& before matches Some(parameters) ==> {
                    &&& after.len() == parameters.len() + if has_image_tag(parameters) {
                        0int
                    } else {
                        1int
                    }
                    &&& forall|j: int|
                        0 <= j < parameters.len() && j != first_image_tag(after) ==> after[j]
                            == parameters[j]
                }
                &&& before is None ==> after == seq![image_tag_parameter(tag)]
            }
        }),
{
    match document.spec.sources[i].helm->0.parameters {
        Some(parameters) => {
            lemma_parameters_with_image_tag(parameters, tag);
        },
        None => {
            let one = seq![image_tag_parameter(tag)];
            assert(is_first_image_tag(one, 0));
            lemma_first_image_tag_is(one, 0);
        },
    }
}

/// A document in which no source has a Helm block is not changed at all.
pub proof fn lemma_no_helm_no_change(document: ApplicationView, tag: Seq<char>)
    requires
        forall|i: int|
            0 <= i < document.spec.sources.len() ==> (#[trigger] document.spec.sources[i]).helm
                is None,
    ensures
        document.with_image_tag(tag) == document,
{
    assert(document.with_image_tag(tag).spec.sources =~= document.spec.sources);
}

} // verus!
