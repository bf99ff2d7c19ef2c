//! Fan-out of one application's oauth2 credentials to several destinations
//! (any mix of Kubernetes Secrets and Vault paths). A write visits the
//! destinations in order and stops at the first failure; a delete visits
//! every destination and reports the first failure. The I/O itself is done
//! by the caller, which drives the run step by step.
use vstd::prelude::*;
use crate::ports::{secret_error_text, SecretStoreError};
use crate::text::{join2, join3, join4};

verus! {

/// One resolved destination, carrying the caller's handle to its store.
pub enum Destination<K, V> {
    /// The Secret `namespace/name`.
    Kubernetes { store: K, namespace: String, name: String },
    /// The KV path `path` of a Vault connection.
    Vault { store: V, path: String },
}

/// How a destination is named in error messages (never its contents).
pub open spec fn label_text<K, V>(d: Destination<K, V>) -> Seq<char> {
    match d {
        Destination::Kubernetes { namespace, name, .. } => "kubernetes secret "@ + namespace@ + "/"@
            + name@,
        Destination::Vault { path, .. } => "vault path "@ + path@,
    }
}

/// The error of a failed write to the destination labelled `label`.
pub open spec fn write_failure_text(label: Seq<char>, e: SecretStoreError) -> Seq<char> {
    "writing to "@ + label + ": "@ + secret_error_text(e)
}

/// The error of a failed delete at the destination labelled `label`.
pub open spec fn delete_failure_text(label: Seq<char>, e: SecretStoreError) -> Seq<char> {
    "deleting "@ + label + ": "@ + secret_error_text(e)
}

/// A store writing to every destination it holds.
pub struct FanOutSecretStore<K, V> {
    destinations: Vec<Destination<K, V>>,
}

impl<K, V> View for FanOutSecretStore<K, V> {
    type V = Seq<Destination<K, V>>;

    closed spec fn view(&self) -> Seq<Destination<K, V>> {
        self.destinations@
    }
}

impl<K, V> Default for FanOutSecretStore<K, V> {
    /// A fan-out with no destination yet.
    fn default() -> (s: Self)
        ensures
            s@ == Seq::<Destination<K, V>>::empty(),
    {
        FanOutSecretStore { destinations: Vec::new() }
    }
}

/// The next step of a run.
pub enum FanOutAction {
    /// Call the destination at this index.
    Visit(usize),
    /// The run is over, with this result.
    Finish(Result<(), SecretStoreError>),
}

impl<K, V> FanOutSecretStore<K, V> {
    /// A fan-out with no destination yet.
    pub fn new() -> (s: Self)
        ensures
            s@ == Seq::<Destination<K, V>>::empty(),
    {
        FanOutSecretStore { destinations: Vec::new() }
    }

    /// Adds the Secret `namespace/name` as the last destination.
    pub fn push_kubernetes(&mut self, store: K, namespace: String, name: String)
        ensures
            final(self)@ == old(self)@.push(Destination::Kubernetes { store, namespace, name }),
    {
        self.destinations.push(Destination::Kubernetes { store, namespace, name });
    }

    /// Adds the Vault path `path` as the last destination.
    pub fn push_vault(&mut self, store: V, path: String)
        ensures
            final(self)@ == old(self)@.push(Destination::Vault { store, path }),
    {
        self.destinations.push(Destination::Vault { store, path });
    }

    /// Whether the fan-out has no destination.
    pub fn is_empty(&self) -> (b: bool)
        ensures
            b == (self@.len() == 0),
    {
        self.destinations.len() == 0
    }

    /// The number of destinations.
    pub fn len(&self) -> (n: usize)
        ensures
            n == self@.len(),
    {
        self.destinations.len()
    }

    /// The destination at `index`.
    pub fn destination(&self, index: usize) -> (d: &Destination<K, V>)
        requires
            index < self@.len(),
        ensures
            *d == self@[index as int],
    {
        &self.destinations[index]
    }

    /// How the destination at `index` is named in error messages.
    pub fn label(&self, index: usize) -> (l: String)
        requires
            index < self@.len(),
        ensures
            l@ == label_text(self@[index as int]),
    {
        match &self.destinations[index] {
            Destination::Kubernetes { namespace, name, .. } => join4(
                "kubernetes secret ",
                namespace.as_str(),
                "/",
                name.as_str(),
            ),
            Destination::Vault { path, .. } => join2("vault path ", path.as_str()),
        }
    }

    /// How a write (or a delete) run begins: at the first destination, or
    /// finished at once when there is none.
    pub fn start(&self) -> (a: FanOutAction)
        ensures
            self@.len() == 0 ==> a == FanOutAction::Finish(Ok(())),
            self@.len() > 0 ==> a == FanOutAction::Visit(0),
    {
        if self.destinations.len() == 0 {
            FanOutAction::Finish(Ok(()))
        } else {
            FanOutAction::Visit(0)
        }
    }

    /// The step after writing to destination `index` gave `result`: on
    /// success the next destination, or the end of the run after the last;
    /// on failure the run stops with a `Write` error naming the destination.
    pub fn write_continue(&self, index: usize, result: Result<(), SecretStoreError>) -> (a: FanOutAction)
        requires
            index < self@.len(),
        ensures
            result is Ok && index + 1 < self@.len() ==> a == FanOutAction::Visit((index + 1) as usize),
            result is Ok && index + 1 == self@.len() ==> a == FanOutAction::Finish(Ok(())),
            result matches Err(e) ==> (a matches FanOutAction::Finish(Err(SecretStoreError::Write(m)))
                && m@ == write_failure_text(label_text(self@[index as int]), e)),
    {
        match result {
            Ok(()) => if index < self.destinations.len() - 1 {
                FanOutAction::Visit(index + 1)
            } else {
                FanOutAction::Finish(Ok(()))
            },
            Err(e) => {
                let label = self.label(index);
                let text = e.text();
                FanOutAction::Finish(Err(SecretStoreError::Write(join4("writing to ", label.as_str(), ": ", text.as_str()))))
            },
        }
    }

    /// The step after deleting at destination `index` gave `result`, the
    /// first failure so far being `first_err`: the next destination is
    /// always visited, whatever the result (`None` once the last is done),
    /// and the first failure is kept, labelled with its destination.
    pub fn delete_continue(&self, index: usize, result: Result<(), SecretStoreError>, first_err: Option<SecretStoreError>) -> (r: (Option<SecretStoreError>, Option<usize>))
        requires
            index < self@.len(),
        ensures
            index + 1 < self@.len() ==> r.1 == Some((index + 1) as usize),
            index + 1 == self@.len() ==> r.1 is None,
            first_err is Some ==> r.0 == first_err,
            first_err is None && result is Ok ==> r.0 is None,
            first_err is None ==> (result matches Err(e) ==> (r.0 matches Some(SecretStoreError::Delete(m))
                && m@ == delete_failure_text(label_text(self@[index as int]), e))),
            failure_text(r.0) == delete_step(label_text(self@[index as int]), result, failure_text(first_err)),
    {
        let next = if index < self.destinations.len() - 1 { Some(index + 1) } else { None };
        match first_err {
            Some(f) => (Some(f), next),
            None => match result {
                Ok(()) => (None, next),
                Err(e) => {
                    let label = self.label(index);
                    let text = e.text();
                    (Some(SecretStoreError::Delete(join4("deleting ", label.as_str(), ": ", text.as_str()))), next)
                },
            },
        }
    }
}

/// The result of a finished delete run: the first failure, if any.
pub fn delete_finish(first_err: Option<SecretStoreError>) -> (r: Result<(), SecretStoreError>)
    ensures
        first_err matches Some(e) ==> r == Err::<(), SecretStoreError>(e),
        first_err is None ==> r is Ok,
{
    match first_err {
        Some(e) => Err(e),
        None => Ok(()),
    }
}

/// The destinations of a fan-out made by `new` and then given `ds`, one
/// push each (`push_kubernetes` or `push_vault`), in order.
pub open spec fn after_pushes<K, V>(ds: Seq<Destination<K, V>>) -> Seq<Destination<K, V>>
    decreases ds.len(),
{
    if ds.len() == 0 {
        Seq::empty()
    } else {
        after_pushes(ds.drop_last()).push(ds.last())
    }
}

/// A fan-out made by `new` and then `k` pushes holds exactly the pushed
/// destinations, in push order; so it is empty (`is_empty`) exactly when
/// `k` is 0.
pub proof fn empty_exactly_when_nothing_was_pushed<K, V>(ds: Seq<Destination<K, V>>)
    ensures
        after_pushes(ds) == ds,
        after_pushes(ds).len() == 0 <==> ds.len() == 0,
    decreases ds.len(),
{
    if ds.len() > 0 {
        empty_exactly_when_nothing_was_pushed(ds.drop_last());
        assert(ds.drop_last().push(ds.last()) =~= ds);
    }
}

/// The text of a delete run's first failure so far, if any.
pub open spec fn failure_text(first: Option<SecretStoreError>) -> Option<Seq<char>> {
    match first {
        Some(SecretStoreError::Write(m)) => Some(m@),
        Some(SecretStoreError::Delete(m)) => Some(m@),
        None => None,
    }
}

/// One step of a delete run: an earlier failure is kept; otherwise a
/// failure at the destination labelled `label` becomes the first.
pub open spec fn delete_step(label: Seq<char>, result: Result<(), SecretStoreError>, first: Option<Seq<char>>) -> Option<Seq<char>> {
    match first {
        Some(m) => Some(m),
        None => match result {
            Ok(()) => None,
            Err(e) => Some(delete_failure_text(label, e)),
        },
    }
}

/// The first-failure text of a delete run over destinations labelled
/// `labels` that met `results`, one step at a time.
pub open spec fn delete_fold(labels: Seq<Seq<char>>, results: Seq<Result<(), SecretStoreError>>) -> Option<Seq<char>>
    decreases results.len(),
{
    if results.len() == 0 {
        None
    } else {
        delete_step(labels[results.len() - 1], results.last(), delete_fold(labels, results.drop_last()))
    }
}

/// A delete run driven by `delete_continue` ends with `delete_fold`: when
/// the run starts with no failure (`firsts[0]`) and each `firsts[i + 1]` is
/// the first failure `delete_continue` hands back after destination `i`
/// (its `delete_step`), the failure `delete_finish` reports is the fold.
pub proof fn a_delete_run_reports_the_fold(
    labels: Seq<Seq<char>>,
    results: Seq<Result<(), SecretStoreError>>,
    firsts: Seq<Option<Seq<char>>>,
)
    requires
        firsts.len() == results.len() + 1,
        firsts[0] is None,
        forall|i: int| #![trigger results[i]] 0 <= i < results.len() ==> firsts[i + 1] == delete_step(
            labels[i],
            results[i],
            firsts[i],
        ),
    ensures
        firsts[results.len() as int] == delete_fold(labels, results),
    decreases results.len(),
{
    if results.len() > 0 {
        let n = results.len() - 1;
        let pre = results.drop_last();
        let fpre = firsts.drop_last();
        assert forall|i: int| #![trigger pre[i]] 0 <= i < pre.len() implies fpre[i + 1] == delete_step(
            labels[i],
            pre[i],
            fpre[i],
        ) by {
            assert(results[i] == pre[i]);
        }
        a_delete_run_reports_the_fold(labels, pre, fpre);
        assert(results[n] == results.last());
    }
}

/// A delete run reports the failure of the first destination that failed,
/// whatever the later ones did, and succeeds only when every destination
/// succeeded.
pub proof fn delete_reports_the_first_failure(labels: Seq<Seq<char>>, results: Seq<Result<(), SecretStoreError>>)
    ensures
        (forall|i: int| 0 <= i < results.len() ==> #[trigger] results[i] is Ok) ==> delete_fold(labels, results) is None,
        forall|i: int| #![trigger results[i]] 0 <= i < results.len() && results[i] is Err
            && (forall|j: int| 0 <= j < i ==> #[trigger] results[j] is Ok)
            ==> delete_fold(labels, results) == Some(delete_failure_text(labels[i], results[i]->Err_0)),
    decreases results.len(),
{
    if results.len() > 0 {
        let pre = results.drop_last();
        delete_reports_the_first_failure(labels, pre);
        assert forall|i: int| #![trigger results[i]] 0 <= i < results.len() && results[i] is Err
            && (forall|j: int| 0 <= j < i ==> #[trigger] results[j] is Ok)
            implies delete_fold(labels, results) == Some(delete_failure_text(labels[i], results[i]->Err_0)) by {
            if i < results.len() - 1 {
                assert(pre[i] == results[i]);
                assert(forall|j: int| 0 <= j < i ==> #[trigger] pre[j] == results[j]);
            } else {
                assert(forall|j: int| 0 <= j < pre.len() ==> #[trigger] pre[j] == results[j]);
            }
        }
        if forall|i: int| 0 <= i < results.len() ==> #[trigger] results[i] is Ok {
            assert(forall|j: int| 0 <= j < pre.len() ==> #[trigger] pre[j] == results[j]);
            assert(results[results.len() - 1] is Ok);
        }
    }
}

} // verus!
