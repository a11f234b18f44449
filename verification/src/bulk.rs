//! Creating the labels once for a whole organization, ahead of the
//! reconciliation repository by repository.
//!
//! Each label takes one mutation. A label that the remote side turns down
//! is recorded and left to the reconciliation, which goes over every
//! repository in any case; the other labels are not affected.

use vstd::prelude::*;
use crate::labels::{label_views, WeekLabel, WeekLabelView};

verus! {

/// What one mutation carries: the organization that is to own the label,
/// and the label's fields.
#[derive(Clone, Debug)]
pub struct OrgLabelMutation {
    pub owner_id: String,
    pub name: String,
    pub color: String,
    pub description: String,
}

/// What an `OrgLabelMutation` holds, as mathematical values.
pub ghost struct OrgLabelMutationView {
    pub owner_id: Seq<char>,
    pub name: Seq<char>,
    pub color: Seq<char>,
    pub description: Seq<char>,
}

impl View for OrgLabelMutation {
    type V = OrgLabelMutationView;

    open spec fn view(&self) -> OrgLabelMutationView {
        OrgLabelMutationView {
            owner_id: self.owner_id@,
            name: self.name@,
            color: self.color@,
            description: self.description@,
        }
    }
}

/// The views of a sequence of texts.
pub open spec fn text_views(texts: Seq<String>) -> Seq<Seq<char>> {
    Seq::new(texts.len(), |i: int| texts[i]@)
}

/// What came back for a mutation.
#[derive(Clone, Debug)]
pub enum MutationResponse {
    /// The created label.
    Created,
    /// A list of errors in place of the label.
    Errors(Vec<String>),
    /// No answer.
    NoAnswer,
}

/// How the creation of one label for the organization ended.
#[derive(Clone, Debug)]
pub enum BulkOutcome {
    /// The label was created.
    Created,
    /// The remote side turned the label down, with these errors.
    Rejected(Vec<String>),
    /// The mutation got no answer.
    NoAnswer,
}

/// What a `MutationResponse` or a `BulkOutcome` holds, as mathematical
/// values: an answer settles the outcome of its label as it stands.
pub ghost enum BulkOutcomeView {
    Created,
    Rejected(Seq<Seq<char>>),
    NoAnswer,
}

impl View for MutationResponse {
    type V = BulkOutcomeView;

    open spec fn view(&self) -> BulkOutcomeView {
        match self {
            MutationResponse::Created => BulkOutcomeView::Created,
            MutationResponse::Errors(errors) => BulkOutcomeView::Rejected(text_views(errors@)),
            MutationResponse::NoAnswer => BulkOutcomeView::NoAnswer,
        }
    }
}

impl View for BulkOutcome {
    type V = BulkOutcomeView;

    open spec fn view(&self) -> BulkOutcomeView {
        match self {
            BulkOutcome::Created => BulkOutcomeView::Created,
            BulkOutcome::Rejected(errors) => BulkOutcomeView::Rejected(text_views(errors@)),
            BulkOutcome::NoAnswer => BulkOutcomeView::NoAnswer,
        }
    }
}

/// The views of a sequence of outcomes.
pub open spec fn outcome_views(outcomes: Seq<BulkOutcome>) -> Seq<BulkOutcomeView> {
    Seq::new(outcomes.len(), |i: int| outcomes[i]@)
}

/// The creation of a sequence of labels for one organization, label by
/// label. The label that is due is the one after those that have an
/// outcome.
#[derive(Clone, Debug)]
pub struct BulkCreator {
    /// The organization that is to own the labels.
    pub owner_id: String,
    /// The labels to create.
    pub labels: Vec<WeekLabel>,
    /// The outcomes of the labels that are done, in the order of the labels.
    pub outcomes: Vec<BulkOutcome>,
}

/// What a `BulkCreator` holds, as mathematical values.
pub ghost struct BulkCreatorView {
    pub owner_id: Seq<char>,
    pub labels: Seq<WeekLabelView>,
    pub outcomes: Seq<BulkOutcomeView>,
}

impl View for BulkCreator {
    type V = BulkCreatorView;

    open spec fn view(&self) -> BulkCreatorView {
        BulkCreatorView {
            owner_id: self.owner_id@,
            labels: label_views(self.labels@),
            outcomes: outcome_views(self.outcomes@),
        }
    }
}

/// The mutation that creates `label` for the organization `owner_id`.
pub open spec fn mutation_of(owner_id: Seq<char>, label: WeekLabelView) -> OrgLabelMutationView {
    OrgLabelMutationView {
        owner_id,
        name: label.name,
        color: label.color,
        description: label.description,
    }
}

/// The creation at its start: no label has an outcome.
pub open spec fn bulk_start(owner_id: Seq<char>, labels: Seq<WeekLabelView>) -> BulkCreatorView {
    BulkCreatorView { owner_id, labels, outcomes: Seq::empty() }
}

/// Whether every label has an outcome.
pub open spec fn bulk_finished(state: BulkCreatorView) -> bool {
    state.outcomes.len() >= state.labels.len()
}

/// The mutation that is due, if any: that of the first label without an
/// outcome.
pub open spec fn bulk_mutation(state: BulkCreatorView) -> Option<OrgLabelMutationView> {
    if bulk_finished(state) {
        None
    } else {
        Some(mutation_of(state.owner_id, state.labels[state.outcomes.len() as int]))
    }
}

/// The state after the answer to the due mutation came back: the answer is
/// the outcome of its label, and the next label is due. A finished creation
/// stays as it is.
pub open spec fn bulk_after(state: BulkCreatorView, response: BulkOutcomeView) -> BulkCreatorView {
    if bulk_finished(state) {
        state
    } else {
        BulkCreatorView { outcomes: state.outcomes.push(response), ..state }
    }
}

/// The state after each of `responses` came back in turn.
pub open spec fn bulk_after_all(state: BulkCreatorView, responses: Seq<BulkOutcomeView>) -> BulkCreatorView
    decreases responses.len(),
{
    if responses.len() == 0 {
        state
    } else {
        bulk_after(bulk_after_all(state, responses.drop_last()), responses.last())
    }
}

/// The view of an optional mutation.
pub open spec fn mutation_view(mutation: Option<OrgLabelMutation>) -> Option<OrgLabelMutationView> {
    match mutation {
        Some(m) => Some(m@),
        None => None,
    }
}

impl BulkCreator {
    /// The creation of `labels` for the organization `owner_id`, at its
    /// start.
    pub fn new(owner_id: String, labels: Vec<WeekLabel>) -> (creator: BulkCreator)
        ensures
            creator@ == bulk_start(owner_id@, label_views(labels@)),
    {
        let creator = BulkCreator { owner_id, labels, outcomes: Vec::new() };
        assert(outcome_views(creator.outcomes@) =~= Seq::empty());
        creator
    }

    /// Whether every label has an outcome.
    pub fn is_finished(&self) -> (finished: bool)
        ensures
            finished == bulk_finished(self@),
            finished == (bulk_mutation(self@) is None),
    {
        self.outcomes.len() >= self.labels.len()
    }

    /// The mutation to send next, or `None` once every label has an outcome.
    pub fn next_mutation(&self) -> (mutation: Option<OrgLabelMutation>)
        ensures
            mutation_view(mutation) == bulk_mutation(self@),
    {
        if self.is_finished() {
            return None;
        }
        let label = &self.labels[self.outcomes.len()];
        Some(
            OrgLabelMutation {
                owner_id: self.owner_id.clone(),
                name: label.name.clone(),
                color: label.color.clone(),
                description: label.description.clone(),
            },
        )
    }

    /// Takes in the answer to the mutation that was due.
    pub fn receive(&mut self, response: MutationResponse)
        ensures
            final(self)@ == bulk_after(old(self)@, response@),
    {
        if self.is_finished() {
            return ;
        }
        let ghost before = outcome_views(self.outcomes@);
        let outcome = match response {
            MutationResponse::Created => BulkOutcome::Created,
            MutationResponse::Errors(errors) => BulkOutcome::Rejected(errors),
            MutationResponse::NoAnswer => BulkOutcome::NoAnswer,
        };
        self.outcomes.push(outcome);
        assert(outcome_views(self.outcomes@) =~= before.push(response@));
    }
}

/// Every label gets the outcome that its own answer gives, whatever came
/// back for the labels before it: a label that is turned down stops neither
/// the labels after it nor changes their outcomes.
pub proof fn lemma_bulk_outcomes(
    owner_id: Seq<char>,
    labels: Seq<WeekLabelView>,
    responses: Seq<BulkOutcomeView>,
)
    requires
        responses.len() <= labels.len(),
    ensures
        bulk_after_all(bulk_start(owner_id, labels), responses).outcomes == responses,
        bulk_after_all(bulk_start(owner_id, labels), responses).labels == labels,
        bulk_after_all(bulk_start(owner_id, labels), responses).owner_id == owner_id,
        bulk_finished(bulk_after_all(bulk_start(owner_id, labels), responses)) <==> responses.len()
            == labels.len(),
    decreases responses.len(),
{
    if responses.len() > 0 {
        lemma_bulk_outcomes(owner_id, labels, responses.drop_last());
        let before = bulk_after_all(bulk_start(owner_id, labels), responses.drop_last());
        assert(before.outcomes.push(responses.last()) =~= responses);
    } else {
        assert(bulk_start(owner_id, labels).outcomes =~= responses);
    }
}

} // verus!
