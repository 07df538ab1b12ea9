//! The managed container: what the runtime reports of a container, the
//! identity rule that singles the game server out, and the running test.

use crate::error::{outcome, Error, ErrorModel};
use crate::text::str_eq;
use itertools::ExactlyOneError;
use itertools::Itertools;
use vstd::prelude::*;
use vstd::string::*;

verus! {

/// What the runtime lists of one container. Every field may be missing.
#[derive(Debug, Clone, PartialEq, Eq)]
pub struct ContainerSummary {
    pub id: Option<String>,
    pub names: Option<Vec<String>>,
    pub image: Option<String>,
    pub state: Option<String>,
}

/// The mathematical value of a [`ContainerSummary`].
pub struct ContainerModel {
    pub id: Option<Seq<char>>,
    pub names: Option<Seq<Seq<char>>>,
    pub image: Option<Seq<char>>,
    pub state: Option<Seq<char>>,
}

impl View for ContainerSummary {
    type V = ContainerModel;

    open spec fn view(&self) -> ContainerModel {
        ContainerModel {
            id: self.id.deep_view(),
            names: self.names.deep_view(),
            image: self.image.deep_view(),
            state: self.state.deep_view(),
        }
    }
}

impl DeepView for ContainerSummary {
    type V = ContainerModel;

    open spec fn deep_view(&self) -> ContainerModel {
        self@
    }
}

impl ContainerModel {
    /// Whether the reported state is the word `running`; a missing state
    /// is not.
    pub open spec fn running(self) -> bool {
        self.state == Some("running"@)
    }
}

/// The image that the game server runs from.
pub open spec fn managed_image() -> Seq<char> {
    "thijsvanloef/palworld-server-docker:latest"@
}

/// The name under which the runtime lists the game server.
pub open spec fn managed_name() -> Seq<char> {
    "/palworld-server"@
}

/// The identity rule: the image is the managed image and one of the names
/// is the managed name, both letter for letter.
pub open spec fn is_managed(container: ContainerModel) -> bool {
    &&& container.image == Some(managed_image())
    &&& container.names is Some
    &&& container.names->0.contains(managed_name())
}

/// The containers of a listing that meet the identity rule, in order.
pub open spec fn candidates(listing: Seq<ContainerModel>) -> Seq<ContainerModel> {
    listing.filter(|c: ContainerModel| is_managed(c))
}

/// The managed container of a listing: the one candidate where there is
/// exactly one, else the failure that says whether there were none or many.
pub open spec fn locate(listing: Seq<ContainerModel>) -> Result<ContainerModel, ErrorModel> {
    let found = candidates(listing);
    if found.len() == 0 {
        Err(ErrorModel::TargetNotFound)
    } else if found.len() == 1 {
        Ok(found[0])
    } else {
        Err(ErrorModel::TargetAmbiguous)
    }
}

/// Every candidate that a listing has, it has with one more container
/// behind it.
proof fn lemma_candidates_push(listing: Seq<ContainerModel>, last: ContainerModel)
    ensures
        candidates(listing.push(last)) == if is_managed(last) {
            candidates(listing).push(last)
        } else {
            candidates(listing)
        },
{
    listing.lemma_filter_push(last, |c: ContainerModel| is_managed(c));
}

/// A listing in which no container meets the identity rule has no
/// managed container: the target is missing.
pub proof fn locate_among_none(listing: Seq<ContainerModel>)
    requires
        forall|k: int| 0 <= k < listing.len() ==> !is_managed(#[trigger] listing[k]),
    ensures
        candidates(listing).len() == 0,
        locate(listing) == Err::<ContainerModel, ErrorModel>(ErrorModel::TargetNotFound),
    decreases listing.len(),
{
    if listing.len() == 0 {
        reveal(Seq::filter);
    } else {
        assert(listing == listing.drop_last().push(listing.last()));
        lemma_candidates_push(listing.drop_last(), listing.last());
        locate_among_none(listing.drop_last());
    }
}

/// A listing in which the container at `i` meets the identity rule and no
/// other does has that container for its managed container.
pub proof fn locate_the_only_one(listing: Seq<ContainerModel>, i: int)
    requires
        0 <= i < listing.len(),
        forall|k: int|
            0 <= k < listing.len() ==> (is_managed(#[trigger] listing[k]) <==> k == i),
    ensures
        candidates(listing) == seq![listing[i]],
        locate(listing) == Ok::<ContainerModel, ErrorModel>(listing[i]),
    decreases listing.len(),
{
    let front = listing.drop_last();
    assert(listing == front.push(listing.last()));
    lemma_candidates_push(front, listing.last());
    if i == listing.len() - 1 {
        locate_among_none(front);
    } else {
        locate_the_only_one(front, i);
    }
}

/// A listing with a container that meets the identity rule has a
/// candidate.
proof fn lemma_candidate_counts(listing: Seq<ContainerModel>, i: int)
    requires
        0 <= i < listing.len(),
        is_managed(listing[i]),
    ensures
        candidates(listing).len() >= 1,
    decreases listing.len(),
{
    let front = listing.drop_last();
    assert(listing == front.push(listing.last()));
    lemma_candidates_push(front, listing.last());
    if i < listing.len() - 1 {
        lemma_candidate_counts(front, i);
    }
}

/// A listing in which two containers meet the identity rule has no
/// managed container: the target is ambiguous, and neither is picked.
pub proof fn locate_among_several(listing: Seq<ContainerModel>, i: int, j: int)
    requires
        0 <= i < j < listing.len(),
        is_managed(listing[i]),
        is_managed(listing[j]),
    ensures
        candidates(listing).len() >= 2,
        locate(listing) == Err::<ContainerModel, ErrorModel>(ErrorModel::TargetAmbiguous),
    decreases listing.len(),
{
    let front = listing.drop_last();
    assert(listing == front.push(listing.last()));
    lemma_candidates_push(front, listing.last());
    if j == listing.len() - 1 {
        lemma_candidate_counts(front, i);
    } else {
        locate_among_several(front, i, j);
    }
}

/// The running test for things that report a runtime state.
pub trait ContainerIsRunning {
    /// Whether the reported state is the word `running`.
    spec fn running(&self) -> bool;

    fn is_running(&self) -> (running: bool)
        ensures
            running == self.running(),
    ;
}

impl ContainerIsRunning for ContainerSummary {
    open spec fn running(&self) -> bool {
        self@.running()
    }

    fn is_running(&self) -> (running: bool) {
        match &self.state {
            Some(state) => str_eq(state.as_str(), "running"),
            None => false,
        }
    }
}

/// `itertools::ExactlyOneError`, the error of `at_most_one`; nothing is
/// read from it.
#[verifier::external_type_specification]
#[verifier::external_body]
#[verifier::reject_recursive_types(I)]
pub struct ExExactlyOneError<I: Iterator>(ExactlyOneError<I>);

/// `itertools::Itertools::at_most_one` on the iterator that owns `items`:
/// nothing for an empty vector, the element of a vector of one, and an
/// error as soon as there are two.
#[verifier::external_body]
fn at_most_one<T>(items: Vec<T>) -> (outcome: Result<
    Option<T>,
    ExactlyOneError<std::vec::IntoIter<T>>,
>)
    ensures
        outcome is Err <==> items@.len() >= 2,
        outcome matches Ok(found) ==> found == (if items@.len() == 1 {
            Some(items@[0])
        } else {
            None
        }),
{
    items.into_iter().at_most_one()
}

/// Whether one of `names` is the managed name.
fn has_managed_name(names: &Vec<String>) -> (found: bool)
    ensures
        found == names.deep_view().contains(managed_name()),
{
    let mut i: usize = 0;
    while i < names.len()
        invariant
            i <= names.len(),
            forall|k: int| 0 <= k < i ==> names.deep_view()[k] != managed_name(),
        decreases names.len() - i,
    {
        if str_eq(names[i].as_str(), "/palworld-server") {
            assert(names.deep_view()[i as int] == managed_name());
            return true;
        }
        i += 1;
    }
    false
}

/// Whether `container` meets the identity rule.
pub fn matches_identity(container: &ContainerSummary) -> (matched: bool)
    ensures
        matched == is_managed(container@),
{
    match (&container.image, &container.names) {
        (Some(image), Some(names)) => {
            str_eq(image.as_str(), "thijsvanloef/palworld-server-docker:latest")
                && has_managed_name(names)
        },
        _ => false,
    }
}

/// Picks the managed container out of a listing of all containers, stopped
/// ones included. It succeeds only where exactly one container meets the
/// identity rule; none and several fail with different errors.
pub fn get_palworld_docker_container(containers: Vec<ContainerSummary>) -> (found: Result<
    ContainerSummary,
    Error,
>)
    ensures
        outcome(found) == locate(containers.deep_view()),
{
    let ghost listing = containers.deep_view();
    let ghost items = containers@;
    let mut matched: Vec<ContainerSummary> = Vec::new();
    for container in it: containers
        invariant
            it.seq() == items,
            listing == Seq::new(items.len(), |i: int| items[i]@),
            matched.deep_view() == candidates(listing.take(it.index() as int)),
    {
        proof {
            let seen = listing.take(it.index() as int);
            assert(listing.take(it.index() + 1) == seen.push(container@));
            seen.lemma_filter_push(container@, |c: ContainerModel| is_managed(c));
        }
        if matches_identity(&container) {
            matched.push(container);
        }
    }
    assert(listing.take(listing.len() as int) == listing);
    match at_most_one(matched) {
        Ok(Some(container)) => Ok(container),
        Ok(None) => Err(Error::TargetNotFound),
        Err(_) => Err(Error::TargetAmbiguous),
    }
}

/// The name by which the runtime starts and stops the game server.
pub open spec fn container_name() -> Seq<char> {
    "palworld-server"@
}

/// What an attempt to start the container came to: a refusal of the
/// runtime is a start failure with the runtime's cause.
pub open spec fn start_outcome(attempt: Result<(), Seq<char>>) -> Result<(), ErrorModel> {
    match attempt {
        Ok(_) => Ok(()),
        Err(cause) => Err(ErrorModel::StartFailed(cause)),
    }
}

/// What an attempt to stop the container came to: a refusal of the runtime
/// is a stop failure with the runtime's cause.
pub open spec fn stop_outcome(attempt: Result<(), Seq<char>>) -> Result<(), ErrorModel> {
    match attempt {
        Ok(_) => Ok(()),
        Err(cause) => Err(ErrorModel::StopFailed(cause)),
    }
}

/// The mathematical value of an attempt on the runtime.
pub open spec fn attempt_model(attempt: Result<(), String>) -> Result<(), Seq<char>> {
    match attempt {
        Ok(_) => Ok(()),
        Err(cause) => Err(cause@),
    }
}

/// The mathematical value of a start or stop that may have failed.
pub open spec fn transition_model(done: Result<(), Error>) -> Result<(), ErrorModel> {
    match done {
        Ok(_) => Ok(()),
        Err(error) => Err(error@),
    }
}

/// Names the failure of an attempt to start the container. The runtime's
/// cause is kept as it is, and nothing is tried again.
pub fn start_docker_container(attempt: Result<(), String>) -> (done: Result<(), Error>)
    ensures
        transition_model(done) == start_outcome(attempt_model(attempt)),
{
    match attempt {
        Ok(_) => Ok(()),
        Err(cause) => Err(Error::StartFailed(cause)),
    }
}

/// Names the failure of an attempt to stop the container. The runtime's
/// cause is kept as it is, and nothing is tried again.
pub fn stop_docker_container(attempt: Result<(), String>) -> (done: Result<(), Error>)
    ensures
        transition_model(done) == stop_outcome(attempt_model(attempt)),
{
    match attempt {
        Ok(_) => Ok(()),
        Err(cause) => Err(Error::StopFailed(cause)),
    }
}

} // verus!
