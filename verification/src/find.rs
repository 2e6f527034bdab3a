//! The finder: its configuration, and the search for sources as a machine
//! that is told the time and the result of each poll and says what to do
//! next.

use vstd::prelude::*;
use crate::bindings::FindCreateT;
use crate::bindings::SourceT;
use crate::error::NDIError;
use crate::internal::close_calls;
use crate::internal::close_handle;
use crate::internal::HandleKind;
use crate::internal::NativeCall;
use crate::internal::Registry;
use crate::internal::RegistryState;
use crate::source::source_view;
use crate::source::source_views;
use crate::source::Source;
use crate::source::SourceView;
use crate::text::copy_text;
use crate::text::spec_text_has_nul;
use crate::text::text_has_nul;

verus! {

/// The configuration of a finder. What is left open takes its default.
#[derive(Debug, Clone)]
pub struct FindBuilder {
    show_local_sources: Option<bool>,
    groups: Option<String>,
    extra_ips: Option<String>,
}

impl FindBuilder {
    /// The choice on local sources, if any.
    pub closed spec fn spec_show_local_sources(&self) -> Option<bool> {
        self.show_local_sources
    }

    /// The groups chosen, if any.
    pub closed spec fn spec_groups(&self) -> Option<String> {
        self.groups
    }

    /// The extra addresses chosen, if any.
    pub closed spec fn spec_extra_ips(&self) -> Option<String> {
        self.extra_ips
    }

    /// Whether the configuration is refused: a text in it holds a zero byte,
    /// so that the native library cannot take it.
    pub open spec fn spec_refused(&self) -> bool {
        spec_text_has_nul(self.spec_groups()) || spec_text_has_nul(self.spec_extra_ips())
    }

    /// Whether nothing is chosen.
    pub open spec fn spec_is_default(&self) -> bool {
        &&& self.spec_show_local_sources().is_none()
        &&& self.spec_groups().is_none()
        &&& self.spec_extra_ips().is_none()
    }

    /// The configuration with nothing chosen is never refused: it builds a
    /// finder from every handle that is not null and not live already.
    pub proof fn law_default_builds(
        self,
        r: Result<Find, NDIError>,
        before: RegistryState,
        after: RegistryState,
        instance: usize,
    )
        requires
            self.spec_is_default(),
            before.wf(),
            instance != 0,
            !before.is_live(instance),
            !self.spec_refused() ==> Find::spec_created(r, before, after, instance),
        ensures
            !self.spec_refused(),
            r matches Ok(find) && find.spec_instance() == instance,
            after.is_held(instance),
    {
        Find::law_fresh_handle_is_created(r, before, after, instance);
    }

    /// The configuration with nothing chosen.
    pub fn new() -> (r: FindBuilder)
        ensures
            r.spec_show_local_sources().is_none(),
            r.spec_groups().is_none(),
            r.spec_extra_ips().is_none(),
    {
        FindBuilder { show_local_sources: None, groups: None, extra_ips: None }
    }

    /// Chooses whether sources on the local machine are reported.
    pub fn show_local_sources(self, show_local_sources: bool) -> (r: FindBuilder)
        ensures
            r.spec_show_local_sources() == Some(show_local_sources),
            r.spec_groups() == self.spec_groups(),
            r.spec_extra_ips() == self.spec_extra_ips(),
    {
        let mut this = self;
        this.show_local_sources = Some(show_local_sources);
        this
    }

    /// Chooses the groups to look in, separated by commas.
    pub fn groups(self, groups: String) -> (r: FindBuilder)
        ensures
            r.spec_groups() == Some(groups),
            r.spec_show_local_sources() == self.spec_show_local_sources(),
            r.spec_extra_ips() == self.spec_extra_ips(),
    {
        let mut this = self;
        this.groups = Some(groups);
        this
    }

    /// Chooses further addresses to ask for sources, separated by commas.
    pub fn extra_ips(self, extra_ips: String) -> (r: FindBuilder)
        ensures
            r.spec_extra_ips() == Some(extra_ips),
            r.spec_show_local_sources() == self.spec_show_local_sources(),
            r.spec_groups() == self.spec_groups(),
    {
        let mut this = self;
        this.extra_ips = Some(extra_ips);
        this
    }

    /// The settings that creation gets: each choice, or its default. Local
    /// sources are shown unless chosen otherwise. Text with a zero byte is
    /// refused.
    pub fn settings(&self) -> (r: Result<FindCreateT, NDIError>)
        ensures
            r is Err == self.spec_refused(),
            r matches Err(e) ==> e == NDIError::InteriorNul,
            r matches Ok(s) ==> {
                &&& s.show_local_sources == match self.spec_show_local_sources() {
                    Some(b) => b,
                    None => true,
                }
                &&& s.p_groups == self.spec_groups()
                &&& s.p_extra_ips == self.spec_extra_ips()
            },
    {
        if text_has_nul(&self.groups) || text_has_nul(&self.extra_ips) {
            return Err(NDIError::InteriorNul);
        }
        let show_local_sources = match self.show_local_sources {
            Some(b) => b,
            None => true,
        };
        Ok(
            FindCreateT {
                show_local_sources,
                p_groups: copy_text(&self.groups),
                p_extra_ips: copy_text(&self.extra_ips),
            },
        )
    }

    /// Makes the finder of the instance that the native library created from
    /// these settings. A configuration that `settings` refuses builds
    /// nothing: the error is `InteriorNul` and the registry stays as it is.
    /// Otherwise as [`Find::new`].
    pub fn build(self, registry: &mut Registry, instance: usize) -> (r: Result<Find, NDIError>)
        requires
            old(registry).wf(),
        ensures
            final(registry).wf(),
            self.spec_refused() ==> r == Err::<Find, NDIError>(NDIError::InteriorNul)
                && final(registry)@ == old(registry)@,
            !self.spec_refused() ==> Find::spec_created(
                r,
                old(registry)@,
                final(registry)@,
                instance,
            ),
    {
        if text_has_nul(&self.groups) || text_has_nul(&self.extra_ips) {
            return Err(NDIError::InteriorNul);
        }
        Find::new(registry, instance)
    }
}

/// A finder.
#[derive(Debug)]
pub struct Find {
    p_instance: usize,
}

impl Find {
    /// The native handle of the finder.
    pub closed spec fn spec_instance(&self) -> usize {
        self.p_instance
    }

    /// What creation from the handle `instance` yields: no finder where the
    /// handle is null or live already; else the finder, whose handle entered
    /// the registry.
    pub open spec fn spec_created(
        r: Result<Find, NDIError>,
        before: RegistryState,
        after: RegistryState,
        instance: usize,
    ) -> bool {
        if before.can_adopt(instance) {
            &&& r matches Ok(find)
            &&& find.spec_instance() == instance
            &&& after == before.adopt(instance, HandleKind::Find)
        } else {
            &&& r matches Err(e)
            &&& e == NDIError::FindCreateError
            &&& after == before
        }
    }

    /// Creation succeeds for every handle that is not null and not live
    /// already, whatever else the registry holds: the finder comes back, and
    /// its handle is live with one reference, that of the finder.
    pub proof fn law_fresh_handle_is_created(
        r: Result<Find, NDIError>,
        before: RegistryState,
        after: RegistryState,
        instance: usize,
    )
        requires
            before.wf(),
            instance != 0,
            !before.is_live(instance),
            Find::spec_created(r, before, after, instance),
        ensures
            r is Ok,
            after.wf(),
            after.is_held(instance),
            after.references(instance) == 1,
    {
        before.lemma_adopt(instance, HandleKind::Find);
    }

    /// Makes the finder of the instance that the native library created. A
    /// null handle means that creation failed.
    pub fn new(registry: &mut Registry, instance: usize) -> (r: Result<Find, NDIError>)
        requires
            old(registry).wf(),
        ensures
            final(registry).wf(),
            Find::spec_created(r, old(registry)@, final(registry)@, instance),
    {
        if registry.adopt(instance, HandleKind::Find) {
            Ok(Find { p_instance: instance })
        } else {
            Err(NDIError::FindCreateError)
        }
    }

    /// The native handle, for the calls that only read it.
    pub fn instance(&self) -> (r: usize)
        ensures
            r == self.spec_instance(),
    {
        self.p_instance
    }

    /// Begins a search for the current sources that gives up once more than
    /// `timeout_ms` milliseconds have passed. The search starts by asking for
    /// the time.
    pub fn current_sources(&self, timeout_ms: u128) -> (r: SourceSearch)
        ensures
            r@ == SearchModel::start(self.spec_instance(), timeout_ms as nat),
    {
        let r = SourceSearch {
            p_instance: self.p_instance,
            timeout_ms,
            state: SearchState::AwaitClock { yield_first: false },
            found: Vec::new(),
        };
        assert(r@.found =~= Seq::<SourceView>::empty());
        r
    }

    /// Lets go of the finder. Its handle is destroyed at once: sources hold
    /// copies and no reference to it.
    pub fn close(self, registry: &mut Registry) -> (r: Result<Vec<NativeCall>, NDIError>)
        requires
            old(registry).wf(),
        ensures
            final(registry).wf(),
            r is Ok == old(registry)@.is_held(self.spec_instance()),
            r matches Ok(calls) ==> {
                &&& calls@ == close_calls(old(registry)@, self.spec_instance())
                &&& final(registry)@ == old(registry)@.relinquish(self.spec_instance())
            },
            r matches Err(e) ==> e == NDIError::AlreadyReleased && final(registry)@ == old(
                registry,
            )@,
    {
        close_handle(registry, self.p_instance)
    }
}

/// Where a search stands.
#[derive(Debug, Clone, Copy, PartialEq, Eq, Structural)]
pub enum SearchState {
    /// It waits to be told how much time has passed. After a poll that found
    /// nothing, the thread is yielded before the time is read.
    AwaitClock { yield_first: bool },
    /// It waits to be told what the poll found.
    AwaitSources,
    /// It ended with sources.
    Found,
    /// It ended because the time ran out.
    TimedOut,
}

/// What the driver of a search does next.
#[derive(Debug, Clone, Copy, PartialEq, Eq, Structural)]
pub enum SearchAction {
    /// Read the time that has passed since the search began, after yielding
    /// the thread where `yield_first` is set, and report it with `on_clock`.
    ReadClock { yield_first: bool },
    /// Ask the finder `instance` for its current sources and report them
    /// with `on_sources`.
    GetCurrentSources { instance: usize },
    /// Take the result: the search has ended.
    Finish,
}

/// A search as a mathematical value.
pub struct SearchModel {
    /// The handle of the finder.
    pub instance: usize,
    /// The time after which the search gives up, in milliseconds.
    pub timeout_ms: nat,
    /// Where the search stands.
    pub state: SearchState,
    /// The sources found, in the order of discovery.
    pub found: Seq<SourceView>,
}

impl SearchModel {
    /// The search as it begins.
    pub open spec fn start(instance: usize, timeout_ms: nat) -> SearchModel {
        SearchModel {
            instance,
            timeout_ms,
            state: SearchState::AwaitClock { yield_first: false },
            found: Seq::empty(),
        }
    }

    /// Whether the search has ended.
    pub open spec fn finished(self) -> bool {
        self.state == SearchState::Found || self.state == SearchState::TimedOut
    }

    /// What the driver does next.
    pub open spec fn action(self) -> SearchAction {
        match self.state {
            SearchState::AwaitClock { yield_first } => SearchAction::ReadClock { yield_first },
            SearchState::AwaitSources => SearchAction::GetCurrentSources {
                instance: self.instance,
            },
            _ => SearchAction::Finish,
        }
    }

    /// The search after it was told that `elapsed_ms` milliseconds have
    /// passed: it gives up where that is more than the timeout, and polls
    /// otherwise. A search that did not ask for the time ignores it.
    pub open spec fn on_clock(self, elapsed_ms: nat) -> SearchModel {
        if self.state is AwaitClock {
            SearchModel {
                state: if elapsed_ms > self.timeout_ms {
                    SearchState::TimedOut
                } else {
                    SearchState::AwaitSources
                },
                ..self
            }
        } else {
            self
        }
    }

    /// The search after it was told that the poll found `sources`: it ends
    /// with them where there is at least one, and else asks for the time
    /// again. A search that did not poll ignores them.
    pub open spec fn on_sources(self, sources: Seq<SourceView>) -> SearchModel {
        if self.state == SearchState::AwaitSources {
            if sources.len() > 0 {
                SearchModel { state: SearchState::Found, found: sources, ..self }
            } else {
                SearchModel { state: SearchState::AwaitClock { yield_first: true }, ..self }
            }
        } else {
            self
        }
    }

    /// The result of the search: the sources, the timeout, or none yet.
    pub open spec fn result(self) -> Option<Result<Seq<SourceView>, NDIError>> {
        match self.state {
            SearchState::Found => Some(Ok(self.found)),
            SearchState::TimedOut => Some(Err(NDIError::FindSourcesTimeout)),
            _ => None,
        }
    }
}

/// What a search is told.
pub enum SearchEvent {
    /// The time that has passed since the search began, in milliseconds.
    Elapsed(nat),
    /// What a poll found.
    Sources(Seq<SourceView>),
}

impl SearchModel {
    /// The search after it was told `event`.
    pub open spec fn step(self, event: SearchEvent) -> SearchModel {
        match event {
            SearchEvent::Elapsed(elapsed_ms) => self.on_clock(elapsed_ms),
            SearchEvent::Sources(sources) => self.on_sources(sources),
        }
    }

    /// The search after it was told `events`, one after the other.
    pub open spec fn run(self, events: Seq<SearchEvent>) -> SearchModel
        decreases events.len(),
    {
        if events.len() == 0 {
            self
        } else {
            self.run(events.drop_last()).step(events.last())
        }
    }

    /// Whether no poll among `events` found a source.
    pub open spec fn all_polls_empty(events: Seq<SearchEvent>) -> bool {
        forall|i: int|
            0 <= i < events.len() ==> (#[trigger] events[i] matches SearchEvent::Sources(s)
                ==> s.len() == 0)
    }

    /// A search never ends with an empty list of sources: while every poll
    /// finds nothing, it does not end with sources at all.
    pub proof fn law_no_sources_never_found(self, events: Seq<SearchEvent>)
        requires
            self.state != SearchState::Found,
            SearchModel::all_polls_empty(events),
        ensures
            self.run(events).state != SearchState::Found,
            self.run(events).result() matches Some(r) ==> r == Err::<Seq<SourceView>, NDIError>(
                NDIError::FindSourcesTimeout,
            ),
        decreases events.len(),
    {
        if events.len() > 0 {
            let before = events.drop_last();
            assert forall|i: int| 0 <= i < before.len() implies (
            #[trigger] before[i] matches SearchEvent::Sources(s) ==> s.len() == 0) by {
                assert(before[i] == events[i]);
            }
            self.law_no_sources_never_found(before);
            let last = events[events.len() - 1];
            assert(last matches SearchEvent::Sources(s) ==> s.len() == 0);
        }
    }

    /// A search that finds nothing does not hang: once it is told a time
    /// past the timeout it ends with the timeout, at the latest after the
    /// poll that was under way.
    pub proof fn law_search_times_out(self, elapsed_ms: nat)
        requires
            !self.finished(),
            elapsed_ms > self.timeout_ms,
        ensures
            self.state is AwaitClock ==> self.on_clock(elapsed_ms).result() == Some(
                Err::<Seq<SourceView>, NDIError>(NDIError::FindSourcesTimeout),
            ),
            self.state == SearchState::AwaitSources ==> self.on_sources(Seq::empty()).on_clock(
                elapsed_ms,
            ).result() == Some(
                Err::<Seq<SourceView>, NDIError>(NDIError::FindSourcesTimeout),
            ),
    {
    }

    /// A search ends with sources exactly when a poll before the timeout
    /// found some, and then with those, in their order.
    pub proof fn law_found_as_polled(self, sources: Seq<SourceView>)
        requires
            self.state == SearchState::AwaitSources,
        ensures
            sources.len() > 0 ==> self.on_sources(sources).result() == Some(
                Ok::<Seq<SourceView>, NDIError>(sources),
            ),
            sources.len() == 0 ==> self.on_sources(sources).result().is_none(),
    {
    }
}

/// A search for sources in progress.
#[derive(Debug)]
pub struct SourceSearch {
    p_instance: usize,
    timeout_ms: u128,
    state: SearchState,
    found: Vec<Source>,
}

impl View for SourceSearch {
    type V = SearchModel;

    closed spec fn view(&self) -> SearchModel {
        SearchModel {
            instance: self.p_instance,
            timeout_ms: self.timeout_ms as nat,
            state: self.state,
            found: self.found@.map_values(|s: Source| s@),
        }
    }
}

impl SourceSearch {
    /// What the driver does next.
    pub fn action(&self) -> (r: SearchAction)
        ensures
            r == self@.action(),
    {
        match self.state {
            SearchState::AwaitClock { yield_first } => SearchAction::ReadClock { yield_first },
            SearchState::AwaitSources => SearchAction::GetCurrentSources {
                instance: self.p_instance,
            },
            _ => SearchAction::Finish,
        }
    }

    /// Tells the search that `elapsed_ms` milliseconds have passed since it
    /// began. Returns what to do next.
    pub fn on_clock(&mut self, elapsed_ms: u128) -> (r: SearchAction)
        ensures
            final(self)@ == old(self)@.on_clock(elapsed_ms as nat),
            r == final(self)@.action(),
    {
        match self.state {
            SearchState::AwaitClock { yield_first } => {
                if elapsed_ms > self.timeout_ms {
                    self.state = SearchState::TimedOut;
                } else {
                    self.state = SearchState::AwaitSources;
                }
            },
            _ => {},
        }
        self.action()
    }

    /// Tells the search what the poll found: the descriptors in the order of
    /// discovery. Each is copied into a source of its own. Returns what to do
    /// next.
    pub fn on_sources(&mut self, sources: &Vec<SourceT>) -> (r: SearchAction)
        ensures
            final(self)@ == old(self)@.on_sources(source_views(sources@)),
            r == final(self)@.action(),
    {
        match self.state {
            SearchState::AwaitSources => {
                if sources.len() > 0 {
                    let mut found: Vec<Source> = Vec::new();
                    let mut k: usize = 0;
                    while k < sources.len()
                        invariant
                            k <= sources.len(),
                            found@.len() == k,
                            forall|i: int| 0 <= i < k ==> found@[i]@ == source_view(sources@[i]),
                        decreases sources.len() - k,
                    {
                        found.push(Source::copy_of(&sources[k]));
                        k += 1;
                    }
                    self.found = found;
                    self.state = SearchState::Found;
                    assert(self@.found =~= source_views(sources@));
                } else {
                    self.state = SearchState::AwaitClock { yield_first: true };
                }
            },
            _ => {},
        }
        self.action()
    }

    /// Whether the search has ended.
    pub fn finished(&self) -> (r: bool)
        ensures
            r == self@.finished(),
    {
        match self.state {
            SearchState::Found => true,
            SearchState::TimedOut => true,
            _ => false,
        }
    }

    /// The result of the search: the sources in the order of discovery, the
    /// error `FindSourcesTimeout`, or nothing where the search has not ended.
    pub fn result(self) -> (r: Option<Result<Vec<Source>, NDIError>>)
        ensures
            match self@.result() {
                None => r.is_none(),
                Some(Err(e)) => r == Some(Err::<Vec<Source>, NDIError>(e)),
                Some(Ok(found)) => r matches Some(Ok(v)) && v@.map_values(|s: Source| s@)
                    == found,
            },
    {
        match self.state {
            SearchState::Found => Some(Ok(self.found)),
            SearchState::TimedOut => Some(Err(NDIError::FindSourcesTimeout)),
            _ => None,
        }
    }
}

} // verus!
