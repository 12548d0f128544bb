//! The retrieval of one package's search index: where its landing page
//! stands, which asset the page names, and what the asset holds.

use vstd::prelude::*;
use crate::address::{join, joined};
use crate::error::{outcome, Failure, IndexError};
use crate::literal::{has_two_quotes, isolate, lemma_literal_iff_two_quotes, literal};
use crate::locator::{
    block_values, lemma_miss, locate, located, marks_asset, names_asset, pick, script_values,
    Values,
};
use crate::unescape::{lemma_unescaped_twice, unescape, unescaped};

verus! {

/// The landing page of a package's documentation, which is also the base of
/// the references found on it.
pub open spec fn base_location(name: Seq<char>, version: Seq<char>) -> Seq<char> {
    "https://docs.rs/"@ + name + "/"@ + version + "/"@ + name + "/"@
}

/// The reference that a page of the package gives, from the values of the
/// dedicated attribute on its block elements and the sources of its scripts.
pub open spec fn reference_among(
    name: Seq<char>,
    version: Seq<char>,
    blocks: Values,
    scripts: Values,
) -> Result<Seq<char>, Failure> {
    match located(blocks, scripts) {
        Some(reference) => Ok(reference),
        None => Err(Failure::NotFound { name, version }),
    }
}

/// The reference that the page `html` of the package gives.
pub open spec fn filename_on(name: Seq<char>, version: Seq<char>, html: Seq<char>) -> Result<
    Seq<char>,
    Failure,
> {
    reference_among(name, version, block_values(html), script_values(html))
}

/// What a join that gave `joined` means for the retrieval.
pub open spec fn address_from(joined: Option<Seq<char>>) -> Result<Seq<char>, Failure> {
    match joined {
        Some(url) => Ok(url),
        None => Err(Failure::Url),
    }
}

/// The absolute address of `reference` for the package.
pub open spec fn address_of(name: Seq<char>, version: Seq<char>, reference: Seq<char>) -> Result<
    Seq<char>,
    Failure,
> {
    address_from(joined(base_location(name, version), reference))
}

/// The address of the search index that the page `html` of the package
/// leads to.
pub open spec fn asset_address(name: Seq<char>, version: Seq<char>, html: Seq<char>) -> Result<
    Seq<char>,
    Failure,
> {
    match filename_on(name, version, html) {
        Ok(reference) => address_of(name, version, reference),
        Err(failure) => Err(failure),
    }
}

/// The JSON text that the script `script` embeds: its literal with one layer
/// of escaping taken off.
pub open spec fn payload(script: Seq<char>) -> Result<Seq<char>, Failure> {
    match literal(script) {
        Some(inner) => Ok(unescaped(inner)),
        None => Err(Failure::Format),
    }
}

/// Which of the two documents a retrieval waits for.
#[derive(Debug, Clone, Copy, PartialEq, Eq, Structural)]
pub enum Stage {
    /// The landing page.
    Page,
    /// The script that holds the search index.
    Asset,
}

/// What a retrieval needs next from whoever drives it.
#[derive(Debug, Clone, PartialEq, Eq)]
pub enum Step {
    /// Fetch `url` and come back with the answer, at `stage`.
    Fetch { stage: Stage, url: String },
    /// The retrieval is over: this is the JSON text.
    Done(String),
    /// The retrieval is over: it failed.
    Failed(IndexError),
}

/// A step as contracts speak of it.
pub enum StepView {
    Fetch { stage: Stage, url: Seq<char> },
    Done(Seq<char>),
    Failed(Failure),
}

impl View for Step {
    type V = StepView;

    open spec fn view(&self) -> StepView {
        match self {
            Step::Fetch { stage, url } => StepView::Fetch { stage: *stage, url: url@ },
            Step::Done(json) => StepView::Done(json@),
            Step::Failed(error) => StepView::Failed(error@),
        }
    }
}

/// An answer of the transport as contracts speak of it: the body of the
/// document, or why there is none.
pub open spec fn reply_view(reply: Result<String, String>) -> Result<Seq<char>, Seq<char>> {
    match reply {
        Ok(body) => Ok(body@),
        Err(reason) => Err(reason@),
    }
}

/// The step that follows the answer `reply` to the fetch made at `stage`.
/// An answer that is no document ends the retrieval, and so does a document
/// that does not hold what is looked for. The landing page leads to one
/// more fetch, that of the asset; the asset's payload is recovered once and
/// ends the retrieval.
pub open spec fn step_after(
    name: Seq<char>,
    version: Seq<char>,
    stage: Stage,
    reply: Result<Seq<char>, Seq<char>>,
) -> StepView {
    match reply {
        Err(reason) => StepView::Failed(Failure::Network { reason }),
        Ok(body) => match stage {
            Stage::Page => match asset_address(name, version, body) {
                Ok(url) => StepView::Fetch { stage: Stage::Asset, url },
                Err(failure) => StepView::Failed(failure),
            },
            Stage::Asset => match payload(body) {
                Ok(json) => StepView::Done(json),
                Err(failure) => StepView::Failed(failure),
            },
        },
    }
}

/// One package and version, with the address of its landing page.
pub struct IndexInitializer {
    crate_name: String,
    crate_version: String,
    base_url: String,
}

impl IndexInitializer {
    /// The package's name.
    pub closed spec fn name(&self) -> Seq<char> {
        self.crate_name@
    }

    /// The package's version.
    pub closed spec fn version(&self) -> Seq<char> {
        self.crate_version@
    }

    #[verifier::type_invariant]
    spec fn well_formed(&self) -> bool {
        &&& self.crate_name@.len() > 0
        &&& self.crate_version@.len() > 0
        &&& self.base_url@ == base_location(self.crate_name@, self.crate_version@)
    }

    /// The retrieval for `crate_name` at `crate_version`.
    pub fn new(crate_name: &str, crate_version: &str) -> (init: Self)
        requires
            crate_name@.len() > 0,
            crate_version@.len() > 0,
        ensures
            init.name() == crate_name@,
            init.version() == crate_version@,
    {
        let mut base_url = String::from_str("https://docs.rs/");
        base_url.append(crate_name);
        base_url.append("/");
        base_url.append(crate_version);
        base_url.append("/");
        base_url.append(crate_name);
        base_url.append("/");
        Self {
            crate_name: String::from_str(crate_name),
            crate_version: String::from_str(crate_version),
            base_url,
        }
    }

    /// The package's name.
    pub fn crate_name(&self) -> (name: &str)
        ensures
            name@ == self.name(),
            name@.len() > 0,
    {
        proof {
            use_type_invariant(self);
        }
        self.crate_name.as_str()
    }

    /// The package's version.
    pub fn crate_version(&self) -> (version: &str)
        ensures
            version@ == self.version(),
            version@.len() > 0,
    {
        proof {
            use_type_invariant(self);
        }
        self.crate_version.as_str()
    }

    /// The address of the package's landing page.
    pub fn base_url(&self) -> (url: &str)
        ensures
            url@ == base_location(self.name(), self.version()),
    {
        proof {
            use_type_invariant(self);
        }
        self.base_url.as_str()
    }

    /// Takes off the backslashes that embedding in a JavaScript literal
    /// added: one before a double quote stays, every other one goes.
    pub fn format_json(index: &str) -> (json: String)
        ensures
            json@ == unescaped(index@),
    {
        unescape(index)
    }

    /// Recovers the JSON text from the script `index`: what stands between
    /// its first and its last single quote, unescaped once. Fails where the
    /// script has fewer than two single quotes.
    pub fn parse_search_index_js(index: &str) -> (json: Result<String, IndexError>)
        ensures
            outcome(json) == payload(index@),
            json is Ok <==> has_two_quotes(index@),
    {
        match isolate(index) {
            Some(inner) => Ok(Self::format_json(inner)),
            None => Err(IndexError::Format),
        }
    }

    /// The error for a page of this package that names no search index.
    pub fn not_found(&self) -> (error: IndexError)
        ensures
            error@ == (Failure::NotFound { name: self.name(), version: self.version() }),
    {
        IndexError::NotFound {
            name: self.crate_name.clone(),
            version: self.crate_version.clone(),
        }
    }

    /// The reference to the search index among the values read off a landing
    /// page: the first value of the dedicated attribute that is not empty,
    /// else the first script source that holds the marker.
    pub fn filename_among(
        &self,
        blocks: &Vec<Option<String>>,
        scripts: &Vec<Option<String>>,
    ) -> (filename: Result<String, IndexError>)
        ensures
            outcome(filename) == reference_among(
                self.name(),
                self.version(),
                blocks.deep_view(),
                scripts.deep_view(),
            ),
    {
        match pick(blocks, scripts) {
            Some(reference) => Ok(reference),
            None => Err(self.not_found()),
        }
    }

    /// The reference to the search index on the landing page `html`: the
    /// dedicated attribute of a block element where one has it, else the
    /// first script source that holds the marker.
    pub fn extract_search_index_filename(&self, html: &str) -> (filename: Result<
        String,
        IndexError,
    >)
        ensures
            outcome(filename) == filename_on(self.name(), self.version(), html@),
    {
        match locate(html) {
            Some(reference) => Ok(reference),
            None => Err(self.not_found()),
        }
    }

    /// The address that a join gave, or the error for a join that gave none.
    pub fn joined_or_error(joined: Option<String>) -> (url: Result<String, IndexError>)
        ensures
            outcome(url) == address_from(joined.deep_view()),
    {
        match joined {
            Some(url) => Ok(url),
            None => Err(IndexError::Url),
        }
    }

    /// The absolute address of `reference`, resolved against the landing
    /// page's address by the standard rules for relative references.
    pub fn resolve(&self, reference: &str) -> (url: Result<String, IndexError>)
        ensures
            outcome(url) == address_of(self.name(), self.version(), reference@),
    {
        Self::joined_or_error(join(self.base_url(), reference))
    }

    /// The address of the search index, from the landing page `html`.
    pub fn search_index_url(&self, html: &str) -> (url: Result<String, IndexError>)
        ensures
            outcome(url) == asset_address(self.name(), self.version(), html@),
    {
        match self.extract_search_index_filename(html) {
            Ok(reference) => self.resolve(reference.as_str()),
            Err(error) => Err(error),
        }
    }

    /// The first step of a retrieval: the fetch of the landing page.
    pub fn begin(&self) -> (step: Step)
        ensures
            step@ == (StepView::Fetch {
                stage: Stage::Page,
                url: base_location(self.name(), self.version()),
            }),
    {
        Step::Fetch { stage: Stage::Page, url: String::from_str(self.base_url()) }
    }

    /// The step of a retrieval that follows the answer `reply` to the fetch
    /// made at `stage`. The driver performs each `Fetch` and hands the
    /// answer back, until a step ends the retrieval.
    pub fn fetch_search_index(&self, stage: Stage, reply: Result<String, String>) -> (step: Step)
        ensures
            step@ == step_after(self.name(), self.version(), stage, reply_view(reply)),
    {
        let body = match reply {
            Ok(body) => body,
            Err(reason) => {
                return Step::Failed(IndexError::Network { reason });
            },
        };
        match stage {
            Stage::Page => match self.search_index_url(body.as_str()) {
                Ok(url) => Step::Fetch { stage: Stage::Asset, url },
                Err(error) => Step::Failed(error),
            },
            Stage::Asset => match Self::parse_search_index_js(body.as_str()) {
                Ok(json) => Step::Done(json),
                Err(error) => Step::Failed(error),
            },
        }
    }
}

/// A script gives a payload exactly when it holds two single quotes or
/// more; with none or one the only outcome is the format error.
pub proof fn lemma_payload_iff_two_quotes(script: Seq<char>)
    ensures
        payload(script) is Ok <==> has_two_quotes(script),
        payload(script) is Err ==> payload(script) == Err::<Seq<char>, Failure>(Failure::Format),
{
    lemma_literal_iff_two_quotes(script);
}

/// A payload is settled: unescaping it once more would change nothing, so
/// it does not show whether the step ran once or more often. The contracts
/// fix it to one run.
pub proof fn lemma_payload_settled(script: Seq<char>)
    requires
        payload(script) is Ok,
    ensures
        unescaped(payload(script)->Ok_0) == payload(script)->Ok_0,
{
    lemma_unescaped_twice(literal(script)->Some_0);
}

/// A landing page without either signal gives the error that names the
/// package and the version.
pub proof fn lemma_no_signal_not_found(
    name: Seq<char>,
    version: Seq<char>,
    blocks: Values,
    scripts: Values,
)
    requires
        forall|j: int| 0 <= j < blocks.len() ==> !names_asset(#[trigger] blocks[j]),
        forall|j: int| 0 <= j < scripts.len() ==> !marks_asset(#[trigger] scripts[j]),
    ensures
        reference_among(name, version, blocks, scripts) == Err::<Seq<char>, Failure>(
            Failure::NotFound { name, version },
        ),
{
    lemma_miss(blocks, scripts);
}

/// A retrieval fetches two documents at most: the answer for the landing
/// page asks for the asset or ends it, and the answer for the asset ends it.
pub proof fn lemma_two_fetches_at_most(
    name: Seq<char>,
    version: Seq<char>,
    stage: Stage,
    reply: Result<Seq<char>, Seq<char>>,
)
    ensures
        (step_after(name, version, stage, reply) matches StepView::Fetch { stage: next, .. }
            ==> stage == Stage::Page && next == Stage::Asset),
{
}

} // verus!
