use crate::models::User;
use vstd::prelude::*;

verus! {

/// The application's screens.
#[derive(Clone, Debug, PartialEq, Eq)]
pub enum Screen {
    Home,
    Search,
    /// The details of the media with this id.
    Details(i32),
    /// The profile of the user with this name.
    Profile(String),
    Settings,
}

/// Whether two screens are the same screen.
pub open spec fn same_screen(a: Screen, b: Screen) -> bool {
    match (a, b) {
        (Screen::Home, Screen::Home) => true,
        (Screen::Search, Screen::Search) => true,
        (Screen::Details(x), Screen::Details(y)) => x == y,
        (Screen::Profile(x), Screen::Profile(y)) => x@ == y@,
        (Screen::Settings, Screen::Settings) => true,
        _ => false,
    }
}

impl Screen {
    pub fn same_as(&self, other: &Screen) -> (r: bool)
        ensures
            r == same_screen(*self, *other),
    {
        match (self, other) {
            (Screen::Home, Screen::Home) => true,
            (Screen::Search, Screen::Search) => true,
            (Screen::Details(x), Screen::Details(y)) => *x == *y,
            (Screen::Profile(x), Screen::Profile(y)) => *x == *y,
            (Screen::Settings, Screen::Settings) => true,
            _ => false,
        }
    }
}

/// The screen on display and the screens visited before it.
pub struct Navigation {
    pub current: Screen,
    pub history: Vec<Screen>,
}

impl Navigation {
    /// Starts on `screen` with no history.
    pub fn new(screen: Screen) -> (r: Navigation)
        ensures
            r.current == screen,
            r.history@.len() == 0,
    {
        Navigation { current: screen, history: Vec::new() }
    }

    /// Shows `screen`, remembering the current one; showing the screen
    /// already on display changes nothing.
    pub fn navigate_to(&mut self, screen: Screen)
        ensures
            if same_screen(old(self).current, screen) {
                *final(self) == *old(self)
            } else {
                &&& final(self).current == screen
                &&& final(self).history@ == old(self).history@.push(old(self).current)
            },
    {
        if !self.current.same_as(&screen) {
            let mut previous = screen;
            std::mem::swap(&mut self.current, &mut previous);
            self.history.push(previous);
        }
    }

    /// Returns to the screen shown before, if any.
    pub fn go_back(&mut self)
        ensures
            if old(self).history@.len() == 0 {
                final(self).current == old(self).current && final(self).history@ == old(
                    self,
                ).history@
            } else {
                &&& final(self).current == old(self).history@.last()
                &&& final(self).history@ == old(self).history@.drop_last()
            },
    {
        if let Some(previous) = self.history.pop() {
            self.current = previous;
        }
    }
}

/// The login component's state.
#[derive(Clone, Debug, PartialEq, Eq)]
pub enum State {
    Idle,
    Authenticating,
    Authenticated { username: String },
    Failed { error: String },
    LoggingOut,
}

impl State {
    /// Whether a user is logged in.
    pub fn is_authenticated(&self) -> (r: bool)
        ensures
            r == (*self is Authenticated),
    {
        match self {
            State::Authenticated { .. } => true,
            _ => false,
        }
    }

    /// The state once a login has finished with `result` (the user's name,
    /// or the error's text).
    pub fn login_completed(result: Result<String, String>) -> (r: State)
        ensures
            match result {
                Ok(name) => r == (State::Authenticated { username: name }),
                Err(e) => r == (State::Failed { error: e }),
            },
    {
        match result {
            Ok(username) => State::Authenticated { username },
            Err(error) => State::Failed { error },
        }
    }

    /// The state once a logout has finished with `result`.
    pub fn logout_completed(result: Result<(), String>) -> (r: State)
        ensures
            match result {
                Ok(()) => r == State::Idle,
                Err(e) => r == (State::Failed { error: e }),
            },
    {
        match result {
            Ok(()) => State::Idle,
            Err(error) => State::Failed { error },
        }
    }
}

/// The statistics panel of a user's profile.
pub struct UserStats {
    pub user: User,
}

impl UserStats {
    pub fn new(user: User) -> (r: UserStats)
        ensures
            r.user == user,
    {
        UserStats { user }
    }
}

/// A character shown on a media's details screen.
#[derive(Clone, Debug)]
pub struct CharacterPreview {
    pub id: i32,
    pub name: String,
    pub image_url: String,
    pub role: String,
}

/// A favourite media on a profile.
#[derive(Clone, Debug)]
pub struct FavoriteItem {
    pub id: i32,
    pub title: String,
    pub image_url: String,
}

/// A favourite character on a profile.
#[derive(Clone, Debug)]
pub struct FavoriteCharacter {
    pub id: i32,
    pub name: String,
    pub image_url: String,
}

} // verus!
