use vstd::prelude::*;

use crate::favorites::{CityList, Favorites};

verus! {

/// The screen the dashboard shows. `W` is the weather report that a
/// finished search brings back; the dashboard only carries it to the screen.
#[derive(Debug, PartialEq, Clone)]
pub enum AppState<W> {
    Search,
    Loading,
    Result { location: String, weather: W },
    Error(String),
}

/// What the user did, or what came back from the forecast service.
pub enum Event<W> {
    /// The search button was clicked, or Enter pressed in the city box.
    SearchSubmitted,
    /// A starred city was clicked in the favorites list.
    FavoriteChosen(String),
    /// The remove button next to a starred city was clicked.
    FavoriteRemoved(String),
    /// The star next to the city on the result screen was clicked.
    StarClicked,
    /// The search that was started came back.
    FetchFinished(Result<W, String>),
    /// The home button on the result screen was clicked.
    HomeClicked,
    /// The back button on the error screen was clicked.
    BackClicked,
}

/// What the shell around the dashboard has to do after a step.
#[derive(Debug, PartialEq, Eq, Clone)]
pub enum Action {
    Nothing,
    /// Start fetching the weather for this city.
    Fetch(String),
    /// Write the favorites list to storage.
    SaveFavorites,
}

/// The dashboard: the text in the city box, the screen, and the starred cities.
pub struct App<W> {
    pub city_name: String,
    pub cur_state: AppState<W>,
    pub favorites: Favorites,
}

/// The dashboard as a mathematical value.
pub struct AppView<W> {
    pub city_name: String,
    pub state: AppState<W>,
    pub favorites: CityList,
}

impl<W> View for App<W> {
    type V = AppView<W>;

    open spec fn view(&self) -> AppView<W> {
        AppView { city_name: self.city_name, state: self.cur_state, favorites: self.favorites@ }
    }
}

/// How the dashboard answers one event: its next value and what the shell must do.
pub open spec fn transition<W>(s: AppView<W>, e: Event<W>) -> (AppView<W>, Action) {
    match e {
        Event::SearchSubmitted => (
            AppView { city_name: s.city_name, state: AppState::Loading, favorites: s.favorites },
            Action::Fetch(s.city_name),
        ),
        Event::FavoriteChosen(city) => (
            AppView { city_name: city, state: AppState::Loading, favorites: s.favorites },
            Action::Fetch(city),
        ),
        Event::FavoriteRemoved(city) => (
            AppView { city_name: s.city_name, state: s.state, favorites: crate::favorites::without(s.favorites, city@) },
            Action::SaveFavorites,
        ),
        Event::StarClicked => match s.state {
            AppState::Result { location, .. } => (
                AppView {
                    city_name: s.city_name,
                    state: s.state,
                    favorites: crate::favorites::toggled(s.favorites, location@),
                },
                Action::SaveFavorites,
            ),
            _ => (s, Action::Nothing),
        },
        Event::FetchFinished(outcome) => match outcome {
            Ok(weather) => (
                AppView {
                    city_name: s.city_name,
                    state: AppState::Result { location: s.city_name, weather },
                    favorites: s.favorites,
                },
                Action::Nothing,
            ),
            Err(e) => (
                AppView { city_name: s.city_name, state: AppState::Error(e), favorites: s.favorites },
                Action::Nothing,
            ),
        },
        Event::HomeClicked | Event::BackClicked => (
            AppView { city_name: s.city_name, state: AppState::Search, favorites: s.favorites },
            Action::Nothing,
        ),
    }
}

impl<W> App<W> {
    /// A dashboard on the search screen with an empty city box and the given favorites.
    pub fn new(favorites: Favorites) -> (app: App<W>)
        ensures
            app.city_name@ == Seq::<char>::empty(),
            app.cur_state == AppState::<W>::Search,
            app.favorites == favorites,
    {
        App { city_name: String::new(), cur_state: AppState::Search, favorites }
    }

    /// Answers one event.
    pub fn step(&mut self, event: Event<W>) -> (action: Action)
        ensures
            (final(self)@, action) == transition(old(self)@, event),
    {
        match event {
            Event::SearchSubmitted => {
                self.cur_state = AppState::Loading;
                Action::Fetch(self.city_name.clone())
            },
            Event::FavoriteChosen(city) => {
                self.city_name = city.clone();
                self.cur_state = AppState::Loading;
                Action::Fetch(city)
            },
            Event::FavoriteRemoved(city) => {
                self.favorites.remove(&city);
                Action::SaveFavorites
            },
            Event::StarClicked => {
                let shown = match &self.cur_state {
                    AppState::Result { location, .. } => Some(location.clone()),
                    _ => None,
                };
                match shown {
                    Some(location) => {
                        if self.favorites.contains(&location) {
                            self.favorites.remove(&location);
                        } else {
                            self.favorites.add(location);
                        }
                        Action::SaveFavorites
                    },
                    None => Action::Nothing,
                }
            },
            Event::FetchFinished(outcome) => {
                match outcome {
                    Ok(weather) => {
                        self.cur_state = AppState::Result { location: self.city_name.clone(), weather };
                    },
                    Err(e) => {
                        self.cur_state = AppState::Error(e);
                    },
                }
                Action::Nothing
            },
            Event::HomeClicked => {
                self.cur_state = AppState::Search;
                Action::Nothing
            },
            Event::BackClicked => {
                self.cur_state = AppState::Search;
                Action::Nothing
            },
        }
    }
}

impl<W> Default for App<W> {
    fn default() -> (app: App<W>)
        ensures
            app.city_name@ == Seq::<char>::empty(),
            app.cur_state == AppState::<W>::Search,
            app.favorites@ == Seq::<Seq<char>>::empty(),
    {
        App::new(Favorites::load())
    }
}

/// The clicks a drawn screen offers: the search screen its search box and
/// its favorites list, the result screen its star and home buttons, the
/// error screen its back button; the loading screen offers none.
pub open spec fn clickable<W>(state: AppState<W>, e: Event<W>) -> bool {
    match state {
        AppState::Search => e is SearchSubmitted || e is FavoriteChosen || e is FavoriteRemoved,
        AppState::Loading => false,
        AppState::Result { .. } => e is StarClicked || e is HomeClicked,
        AppState::Error(_) => e is BackClicked,
    }
}

/// The events a screen offers: its clicks, and on the loading screen the end
/// of the search under way.
pub open spec fn offered<W>(state: AppState<W>, e: Event<W>) -> bool {
    clickable(state, e) || (state is Loading && e is FetchFinished)
}

/// The dashboard after a run of events, applied in order.
pub open spec fn run<W>(s: AppView<W>, events: Seq<Event<W>>) -> AppView<W>
    decreases events.len(),
{
    if events.len() == 0 {
        s
    } else {
        transition(run(s, events.drop_last()), events.last()).0
    }
}

/// Whether a search is under way after a run of events, given whether one
/// was under way before it.
pub open spec fn pending_after_run<W>(pending: bool, s: AppView<W>, events: Seq<Event<W>>) -> bool
    decreases events.len(),
{
    if events.len() == 0 {
        pending
    } else {
        fetch_pending_after(
            pending_after_run(pending, s, events.drop_last()),
            events.last(),
            transition(run(s, events.drop_last()), events.last()).1,
        )
    }
}

/// The moves between screens: Search to Loading, Loading to Result or
/// Error, Result or Error back to Search.
pub open spec fn screen_edge<W>(from: AppState<W>, to: AppState<W>) -> bool {
    match (from, to) {
        (AppState::Search, AppState::Loading) => true,
        (AppState::Loading, AppState::Result { .. }) => true,
        (AppState::Loading, AppState::Error(_)) => true,
        (AppState::Result { .. }, AppState::Search) => true,
        (AppState::Error(_), AppState::Search) => true,
        _ => false,
    }
}

/// Whether a search is under way after a step: one was under way and the
/// step was not its end, or the step started one.
pub open spec fn fetch_pending_after<W>(pending: bool, e: Event<W>, a: Action) -> bool {
    (pending && !(e is FetchFinished)) || a is Fetch
}

// ---------------------------------------------------------------------------
// Laws of the dashboard
// ---------------------------------------------------------------------------

/// A search that comes back with a report shows that report under the city
/// that was in the city box when the search was started.
pub proof fn lemma_search_result_names_city<W>(s: AppView<W>, weather: W)
    ensures
        transition(s, Event::SearchSubmitted).1 == Action::Fetch(s.city_name),
        transition(transition(s, Event::SearchSubmitted).0, Event::FetchFinished(Ok(weather))).0.state
            == (AppState::Result { location: s.city_name, weather }),
{
}

/// Choosing a starred city fetches that city and shows its report under its name.
pub proof fn lemma_favorite_result_names_city<W>(s: AppView<W>, city: String, weather: W)
    ensures
        transition(s, Event::FavoriteChosen(city)).1 == Action::Fetch(city),
        transition(
            transition(s, Event::FavoriteChosen(city)).0,
            Event::FetchFinished(Ok(weather)),
        ).0.state == (AppState::Result { location: city, weather }),
{
}

/// Whenever a step asks for a fetch, the loading screen is up and the city
/// box holds the city being fetched.
pub proof fn lemma_fetch_means_loading<W>(s: AppView<W>, e: Event<W>, city: String)
    requires
        transition(s, e).1 == Action::Fetch(city),
    ensures
        transition(s, e).0.state == AppState::<W>::Loading,
        transition(s, e).0.city_name == city,
{
}

/// A failed search shows its error; home and back both return to the search
/// screen; none of these touch the city box or the favorites.
pub proof fn lemma_navigation_keeps_data<W>(s: AppView<W>, e: Event<W>)
    requires
        e is HomeClicked || e is BackClicked || e is FetchFinished,
    ensures
        transition(s, e).0.city_name == s.city_name,
        transition(s, e).0.favorites == s.favorites,
        transition(s, e).1 == Action::Nothing,
        (e is HomeClicked || e is BackClicked) ==> transition(s, e).0.state == AppState::<W>::Search,
        e matches Event::FetchFinished(Err(m)) ==> transition(s, e).0.state == AppState::<W>::Error(m),
{
}

/// Editing the favorites never changes the screen or the city box, and
/// every change to the list is followed by saving it.
pub proof fn lemma_favorite_events_keep_screen<W>(s: AppView<W>, e: Event<W>)
    requires
        e is FavoriteRemoved || e is StarClicked,
    ensures
        transition(s, e).0.state == s.state,
        transition(s, e).0.city_name == s.city_name,
        transition(s, e).0.favorites != s.favorites ==> transition(s, e).1 == Action::SaveFavorites,
{
}

/// No event puts the same city in the favorites twice.
pub proof fn lemma_steps_keep_favorites_unique<W>(s: AppView<W>, e: Event<W>)
    requires
        s.favorites.no_duplicates(),
    ensures
        transition(s, e).0.favorites.no_duplicates(),
{
    match e {
        Event::FavoriteRemoved(city) => {
            crate::favorites::lemma_without_no_duplicates(s.favorites, city@);
        },
        Event::StarClicked => {
            if let AppState::Result { location, .. } = s.state {
                crate::favorites::lemma_toggled_no_duplicates(s.favorites, location@);
            }
        },
        _ => {},
    }
}

/// Clicking the star of a city that is not starred, and then clicking it
/// again, leaves the favorites as they were.
pub proof fn lemma_star_twice_restores<W>(s: AppView<W>)
    requires
        s.state is Result,
        !s.favorites.contains(s.state->location@),
    ensures
        transition(transition(s, Event::StarClicked).0, Event::StarClicked).0.favorites == s.favorites,
{
    crate::favorites::lemma_toggle_twice_restores(s.favorites, s.state->location@);
}

/// For the events each screen offers, the screen only moves along
/// Search -> Loading -> Result or Error -> Search; Loading is entered exactly
/// when a fetch is asked for; and a search is under way exactly while the
/// loading screen is up, if that held before the step.
pub proof fn lemma_screen_flow<W>(s: AppView<W>, e: Event<W>, pending: bool)
    requires
        offered(s.state, e),
        pending <==> s.state is Loading,
    ensures
        transition(s, e).0.state != s.state ==> screen_edge(s.state, transition(s, e).0.state),
        (transition(s, e).0.state is Loading && !(s.state is Loading)) <==> transition(s, e).1 is Fetch,
        fetch_pending_after(pending, e, transition(s, e).1) <==> transition(s, e).0.state is Loading,
{
}

/// A screen reached from `drawn` by the clicks of one frame: `drawn` itself
/// or one move away.
pub open spec fn within_frame<W>(drawn: AppState<W>, now: AppState<W>) -> bool {
    now == drawn || screen_edge(drawn, now)
}

proof fn lemma_frame_step<W>(drawn: AppState<W>, s: AppView<W>, e: Event<W>, pending: bool)
    requires
        clickable(drawn, e),
        within_frame(drawn, s.state),
        pending <==> s.state is Loading,
    ensures
        within_frame(drawn, transition(s, e).0.state),
        transition(s, e).0.state != s.state ==> screen_edge(s.state, transition(s, e).0.state),
        fetch_pending_after(pending, e, transition(s, e).1) <==> transition(s, e).0.state is Loading,
{
}

proof fn lemma_frame_prefix<W>(s: AppView<W>, events: Seq<Event<W>>, pending: bool)
    requires
        forall|i: int| 0 <= i < events.len() ==> clickable(s.state, #[trigger] events[i]),
        pending <==> s.state is Loading,
    ensures
        within_frame(s.state, run(s, events).state),
        pending_after_run(pending, s, events) <==> run(s, events).state is Loading,
        events.len() > 0 && run(s, events).state != run(s, events.drop_last()).state
            ==> screen_edge(run(s, events.drop_last()).state, run(s, events).state),
    decreases events.len(),
{
    if events.len() > 0 {
        let rest = events.drop_last();
        assert forall|i: int| 0 <= i < rest.len() implies clickable(s.state, #[trigger] rest[i]) by {
            assert(rest[i] == events[i]);
        }
        lemma_frame_prefix(s, rest, pending);
        assert(clickable(s.state, events[events.len() - 1]));
        lemma_frame_step(s.state, run(s, rest), events.last(), pending_after_run(pending, s, rest));
    }
}

/// The clicks of one drawn frame, applied in a row, move the screen only along
/// Search -> Loading -> Result or Error -> Search, each move one of those
/// edges; and a search is under way exactly while the loading screen is up,
/// after every click, if that held when the frame was drawn. With
/// `lemma_screen_flow` for the end of a search, which the shell applies before
/// drawing, this covers a whole frame.
pub proof fn lemma_frame_flow<W>(s: AppView<W>, events: Seq<Event<W>>, pending: bool)
    requires
        forall|i: int| 0 <= i < events.len() ==> clickable(s.state, #[trigger] events[i]),
        pending <==> s.state is Loading,
    ensures
        forall|i: int|
            #![trigger events[i]]
            0 <= i < events.len() ==> {
                let before = run(s, events.take(i)).state;
                let after = run(s, events.take(i + 1)).state;
                &&& after != before ==> screen_edge(before, after)
                &&& pending_after_run(pending, s, events.take(i + 1)) <==> after is Loading
            },
        within_frame(s.state, run(s, events).state),
        pending_after_run(pending, s, events) <==> run(s, events).state is Loading,
{
    lemma_frame_prefix(s, events, pending);
    assert forall|i: int| #![trigger events[i]] 0 <= i < events.len() implies {
        let before = run(s, events.take(i)).state;
        let after = run(s, events.take(i + 1)).state;
        &&& after != before ==> screen_edge(before, after)
        &&& pending_after_run(pending, s, events.take(i + 1)) <==> after is Loading
    } by {
        let pre = events.take(i + 1);
        assert(pre.drop_last() =~= events.take(i));
        assert forall|k: int| 0 <= k < pre.len() implies clickable(s.state, #[trigger] pre[k]) by {
            assert(pre[k] == events[k]);
        }
        lemma_frame_prefix(s, pre, pending);
    }
}

/// What each event does, in terms of the list operations of the sequence
/// library: removing a favorite filters that city out of the list, keeping
/// the others in order; the star unstars the shown city by filtering it out
/// or stars it by appending it; every other event leaves the list alone.
pub proof fn lemma_event_effects<W>(s: AppView<W>, e: Event<W>)
    ensures
        match e {
            Event::FavoriteRemoved(city) => {
                &&& transition(s, e).0.favorites == s.favorites.filter(crate::favorites::other_than(city@))
                &&& transition(s, e).0.state == s.state
                &&& transition(s, e).0.city_name == s.city_name
                &&& transition(s, e).1 == Action::SaveFavorites
            },
            Event::StarClicked => match s.state {
                AppState::Result { location, .. } => {
                    &&& s.favorites.contains(location@) ==> transition(s, e).0.favorites
                        == s.favorites.filter(crate::favorites::other_than(location@))
                    &&& !s.favorites.contains(location@) ==> transition(s, e).0.favorites
                        == s.favorites.push(location@)
                    &&& transition(s, e).1 == Action::SaveFavorites
                },
                _ => transition(s, e).0 == s && transition(s, e).1 == Action::Nothing,
            },
            _ => transition(s, e).0.favorites == s.favorites,
        },
{
    match e {
        Event::FavoriteRemoved(city) => {
            crate::favorites::lemma_without_is_filter(s.favorites, city@);
        },
        Event::StarClicked => {
            if let AppState::Result { location, .. } = s.state {
                crate::favorites::lemma_without_is_filter(s.favorites, location@);
            }
        },
        _ => {},
    }
}

} // verus!
