//! Keeps track of whether the image has been loaded, when the load
//! happens on a background thread.
use std::sync::{Arc, Mutex};
use vstd::prelude::*;

verus! {

#[verifier::external_type_specification]
#[verifier::external_body]
#[verifier::reject_recursive_types(T)]
pub struct ExMutex<T: ?Sized>(Mutex<T>);

/// `Mutex::new`: a mutex holding `value`, which can only be read back through a lock,
/// so nothing is promised of what a later read gives.
#[verifier::external_body]
fn new_mutex(value: bool) -> Mutex<bool> {
    Mutex::new(value)
}

/// `Mutex::try_lock` on the shared flag: `Some` with its value when the lock was free,
/// `None` when another thread held it (or it was poisoned). Which of the two happens,
/// and the value, depend on the other threads, so nothing is promised of the result.
#[verifier::external_body]
fn try_read_shared_flag(flag: &Arc<Mutex<bool>>) -> Option<bool> {
    match flag.try_lock() {
        Ok(value) => Some(*value),
        Err(_) => None,
    }
}

/// `Arc::clone`: another pointer to the same allocation, so it points to the very
/// mutex that `flag` points to.
#[verifier::external_body]
fn share_flag(flag: &Arc<Mutex<bool>>) -> (shared: Arc<Mutex<bool>>)
    ensures
        shared == *flag,
{
    Arc::clone(flag)
}

/// Handles all the image loading logic in a thread safe manner to allow
/// features such as background image loading / lazy loading.
pub struct ImageLoader {
    pub image_loaded: bool,
    /// The flag shared with the loading thread, made when it is first handed out; until
    /// then no other thread can set it, so it holds the `false` it is made with.
    image_loaded_arc: Option<Arc<Mutex<bool>>>,
    image_loading: bool,
}

impl ImageLoader {
    /// Whether a load has been started and not yet seen to finish.
    pub closed spec fn is_loading(&self) -> bool {
        self.image_loading
    }

    /// Whether the image counts as loaded.
    pub closed spec fn is_loaded(&self) -> bool {
        self.image_loaded
    }

    /// The public `image_loaded` field, as verified callers can read it: whether the image
    /// counts as loaded.
    pub fn image_loaded(&self) -> (loaded: bool)
        ensures
            loaded == self.is_loaded(),
    {
        self.image_loaded
    }

    /// The flag the loading thread sets once it is done, once it has been handed out.
    pub closed spec fn shared_flag(&self) -> Option<Arc<Mutex<bool>>> {
        self.image_loaded_arc
    }

    pub fn new() -> (loader: Self)
        ensures
            !loader.is_loaded(),
            !loader.is_loading(),
            loader.shared_flag() is None,
    {
        Self { image_loaded: false, image_loaded_arc: None, image_loading: false }
    }

    /// Brings `image_loaded` up to date with the flag the loading thread sets.
    /// Until the flag has been handed out it reads the `false` it is made with; after that,
    /// whether it can be read (its lock may be held by the loading thread), and its value,
    /// depend on the other threads. What follows from each reading is `take_flag_reading`.
    pub fn update(&mut self)
        ensures
            *final(self) == *old(self) || !final(self).is_loading(),
            old(self).shared_flag() is None ==> !final(self).is_loaded() && !final(self).is_loading(),
            final(self).shared_flag() == old(self).shared_flag(),
    {
        let reading = match &self.image_loaded_arc {
            Some(flag) => try_read_shared_flag(flag),
            None => Some(false),
        };
        self.take_flag_reading(reading);
    }

    /// Takes in a `reading` of the shared flag: when the flag could be read, the loader
    /// no longer counts as loading and `image_loaded` holds the flag's value; when it
    /// could not (`None`), nothing changes.
    pub fn take_flag_reading(&mut self, reading: Option<bool>)
        ensures
            reading is None ==> *final(self) == *old(self),
            reading matches Some(value) ==> final(self).is_loaded() == value && !final(self).is_loading(),
            final(self).shared_flag() == old(self).shared_flag(),
    {
        if let Some(value) = reading {
            self.image_loaded = value;
            self.image_loading = false;
        }
    }

    /// The decision that opens a load: when a load is already in progress this
    /// returns `false` and changes nothing; otherwise the loader is marked as
    /// loading and `true` is returned, meaning the caller may go on loading.
    pub fn start_loading(&mut self) -> (may_load: bool)
        ensures
            may_load == !old(self).is_loading(),
            final(self).is_loading(),
            final(self).is_loaded() == old(self).is_loaded(),
    {
        if self.image_loading {
            return false;
        }
        self.image_loading = true;
        true
    }

    /// Another handle on the flag that the loading thread sets once it is done; the flag is
    /// made, holding `false`, the first time it is handed out.
    pub fn loaded_flag(&mut self) -> (flag: Arc<Mutex<bool>>)
        ensures
            final(self).shared_flag() == Some(flag),
            old(self).shared_flag() is Some ==> final(self).shared_flag() == old(self).shared_flag(),
            final(self).is_loaded() == old(self).is_loaded(),
            final(self).is_loading() == old(self).is_loading(),
    {
        match &self.image_loaded_arc {
            Some(flag) => share_flag(flag),
            None => {
                let flag = Arc::new(new_mutex(false));
                let shared = share_flag(&flag);
                self.image_loaded_arc = Some(flag);
                shared
            },
        }
    }
}

} // verus!
