use weather_dashboard::app::{Action, App, AppState, Event};
use weather_dashboard::favorites::Favorites;

fn app_with(favs: &[&str]) -> App<u32> {
    App::new(Favorites { locations: favs.iter().map(|n| n.to_string()).collect() })
}

#[test]
fn default_app_is_on_the_search_screen() {
    let app: App<u32> = App::default();
    assert_eq!(app.city_name, "");
    assert_eq!(app.cur_state, AppState::Search);
    assert!(app.favorites.locations.is_empty());
}

#[test]
fn search_starts_loading_and_fetches_the_typed_city() {
    let mut app = app_with(&[]);
    app.city_name = "Iasi".to_string();
    assert_eq!(app.step(Event::SearchSubmitted), Action::Fetch("Iasi".to_string()));
    assert_eq!(app.cur_state, AppState::Loading);
}

#[test]
fn finished_search_shows_the_report_under_the_searched_city() {
    let mut app = app_with(&[]);
    app.city_name = "Iasi".to_string();
    app.step(Event::SearchSubmitted);
    assert_eq!(app.step(Event::FetchFinished(Ok(42))), Action::Nothing);
    assert_eq!(app.cur_state, AppState::Result { location: "Iasi".to_string(), weather: 42 });
}

#[test]
fn failed_search_shows_the_error_and_back_returns() {
    let mut app = app_with(&[]);
    app.city_name = "Nowhere".to_string();
    app.step(Event::SearchSubmitted);
    app.step(Event::FetchFinished(Err("City not found".to_string())));
    assert_eq!(app.cur_state, AppState::Error("City not found".to_string()));
    assert_eq!(app.step(Event::BackClicked), Action::Nothing);
    assert_eq!(app.cur_state, AppState::Search);
    assert_eq!(app.city_name, "Nowhere");
}

#[test]
fn choosing_a_favorite_fills_the_box_and_fetches_it() {
    let mut app = app_with(&["Cluj"]);
    assert_eq!(app.step(Event::FavoriteChosen("Cluj".to_string())), Action::Fetch("Cluj".to_string()));
    assert_eq!(app.city_name, "Cluj");
    assert_eq!(app.cur_state, AppState::Loading);
    app.step(Event::FetchFinished(Ok(1)));
    assert_eq!(app.cur_state, AppState::Result { location: "Cluj".to_string(), weather: 1 });
}

#[test]
fn removing_a_favorite_saves() {
    let mut app = app_with(&["Cluj", "Iasi"]);
    assert_eq!(app.step(Event::FavoriteRemoved("Cluj".to_string())), Action::SaveFavorites);
    assert_eq!(app.favorites.locations, vec!["Iasi"]);
    assert_eq!(app.cur_state, AppState::Search);
}

#[test]
fn star_toggles_the_shown_city() {
    let mut app = app_with(&["Cluj"]);
    app.city_name = "Iasi".to_string();
    app.step(Event::SearchSubmitted);
    app.step(Event::FetchFinished(Ok(5)));
    assert_eq!(app.step(Event::StarClicked), Action::SaveFavorites);
    assert_eq!(app.favorites.locations, vec!["Cluj", "Iasi"]);
    assert_eq!(app.step(Event::StarClicked), Action::SaveFavorites);
    assert_eq!(app.favorites.locations, vec!["Cluj"]);
}

#[test]
fn star_on_a_screen_without_a_report_does_nothing() {
    let mut app = app_with(&["Cluj"]);
    assert_eq!(app.step(Event::StarClicked), Action::Nothing);
    assert_eq!(app.favorites.locations, vec!["Cluj"]);
}

#[test]
fn home_returns_to_search_keeping_favorites() {
    let mut app = app_with(&["Cluj"]);
    app.city_name = "Cluj".to_string();
    app.step(Event::SearchSubmitted);
    app.step(Event::FetchFinished(Ok(3)));
    assert_eq!(app.step(Event::HomeClicked), Action::Nothing);
    assert_eq!(app.cur_state, AppState::Search);
    assert_eq!(app.favorites.locations, vec!["Cluj"]);
}

#[test]
fn result_keeps_the_city_of_the_search_not_later_edits() {
    let mut app = app_with(&[]);
    app.city_name = "Iasi".to_string();
    app.step(Event::SearchSubmitted);
    app.step(Event::FetchFinished(Ok(9)));
    app.city_name = "Oslo".to_string();
    assert_eq!(app.cur_state, AppState::Result { location: "Iasi".to_string(), weather: 9 });
}

#[test]
fn screens_follow_search_loading_result_search_with_one_fetch_at_a_time() {
    let mut app = app_with(&[]);
    let mut pending = false;
    app.city_name = "Iasi".to_string();
    let a = app.step(Event::SearchSubmitted);
    pending = pending || matches!(a, Action::Fetch(_));
    assert!(pending && app.cur_state == AppState::Loading);
    app.step(Event::FetchFinished(Ok(1)));
    pending = false;
    assert!(!pending && matches!(app.cur_state, AppState::Result { .. }));
    app.step(Event::HomeClicked);
    assert_eq!(app.cur_state, AppState::Search);
    app.step(Event::SearchSubmitted);
    app.step(Event::FetchFinished(Err("x".to_string())));
    assert!(matches!(app.cur_state, AppState::Error(_)));
    app.step(Event::BackClicked);
    assert_eq!(app.cur_state, AppState::Search);
}

#[test]
fn clicks_of_one_search_frame_stay_on_the_loading_screen() {
    let mut app = app_with(&["Cluj", "Oslo"]);
    app.city_name = "Iasi".to_string();
    assert_eq!(app.step(Event::SearchSubmitted), Action::Fetch("Iasi".to_string()));
    assert_eq!(app.step(Event::FavoriteRemoved("Oslo".to_string())), Action::SaveFavorites);
    assert_eq!(app.step(Event::FavoriteChosen("Cluj".to_string())), Action::Fetch("Cluj".to_string()));
    assert_eq!(app.cur_state, AppState::Loading);
    assert_eq!(app.city_name, "Cluj");
    assert_eq!(app.favorites.locations, vec!["Cluj"]);
}

#[test]
fn clicks_of_one_result_frame_home_then_star_leave_favorites_alone() {
    let mut app = app_with(&[]);
    app.city_name = "Iasi".to_string();
    app.step(Event::SearchSubmitted);
    app.step(Event::FetchFinished(Ok(2)));
    assert_eq!(app.step(Event::HomeClicked), Action::Nothing);
    assert_eq!(app.step(Event::StarClicked), Action::Nothing);
    assert_eq!(app.cur_state, AppState::Search);
    assert!(app.favorites.locations.is_empty());
}
