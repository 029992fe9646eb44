//! Desktop notifications: the `org.freedesktop.Notifications` server state
//! (identifier allocation, image hints), the store of shown notifications and
//! the notification card.
use vstd::prelude::*;

use std::collections::HashMap;

verus! {

broadcast use vstd::std_specs::hash::group_hash_axioms;

/// The image attached to a notification.
#[derive(Clone, Debug)]
pub enum Image {
    /// Raw pixel data, as in the `image-data` hint.
    Data {
        width: i32,
        height: i32,
        rowstride: i32,
        has_alpha: bool,
        bits_per_sample: i32,
        channels: i32,
        data: Vec<u8>,
    },
    /// A file path or URL, as in the `image-path` hint.
    Path(String),
}

/// A notification as the shell shows it.
#[derive(Clone, Debug)]
pub struct Notification {
    pub id: u32,
    pub app_name: String,
    pub app_icon: String,
    pub summary: String,
    pub body: String,
    pub image: Option<Image>,
}

/// The `(iiibiiay)` structure of the `image-data` hint.
#[derive(Clone, Debug)]
pub struct RawImageData {
    pub width: i32,
    pub height: i32,
    pub rowstride: i32,
    pub has_alpha: bool,
    pub bits_per_sample: i32,
    pub channels: i32,
    pub data: Vec<u8>,
}

/// The hints of a `Notify` call that the shell reads.
#[derive(Clone, Debug)]
pub struct Hints {
    /// The printed value of the `image-path` hint, when present.
    pub image_path: Option<String>,
    /// The `image-data` hint, when present and of the expected shape.
    pub image_data: Option<RawImageData>,
}

/// The image a notification gets from its hints: the `image-path` hint wins
/// over the `image-data` hint.
pub open spec fn image_from_hints(h: Hints) -> Option<Image> {
    match h.image_path {
        Some(p) => Some(Image::Path(p)),
        None => match h.image_data {
            Some(d) => Some(
                Image::Data {
                    width: d.width,
                    height: d.height,
                    rowstride: d.rowstride,
                    has_alpha: d.has_alpha,
                    bits_per_sample: d.bits_per_sample,
                    channels: d.channels,
                    data: d.data,
                },
            ),
            None => None,
        },
    }
}

/// Picks the image of a notification from its hints.
pub fn image_from_hints_exec(h: Hints) -> (r: Option<Image>)
    ensures
        r == image_from_hints(h),
{
    match h.image_path {
        Some(p) => Some(Image::Path(p)),
        None => match h.image_data {
            Some(d) => Some(
                Image::Data {
                    width: d.width,
                    height: d.height,
                    rowstride: d.rowstride,
                    has_alpha: d.has_alpha,
                    bits_per_sample: d.bits_per_sample,
                    channels: d.channels,
                    data: d.data,
                },
            ),
            None => None,
        },
    }
}

/// The identifier a `Notify` call answers: the one it replaces, or the next
/// unused one.
pub open spec fn notify_id(last_id_used: u32, replaces_id: u32) -> int {
    if replaces_id != 0 {
        replaces_id as int
    } else {
        last_id_used + 1
    }
}

/// The last identifier used after a `Notify` call.
pub open spec fn last_id_after(last_id_used: u32, replaces_id: u32) -> int {
    if replaces_id != 0 {
        last_id_used as int
    } else {
        last_id_used + 1
    }
}

/// The notification server's state.
pub struct Notifications {
    last_id_used: u32,
}

impl Notifications {
    pub closed spec fn last_id(self) -> u32 {
        self.last_id_used
    }

    /// A server that has handed out no identifier yet.
    pub fn new() -> (r: Notifications)
        ensures
            r.last_id() == 0,
    {
        Notifications { last_id_used: 0 }
    }

    /// The last identifier handed out.
    pub fn last_id_used(&self) -> (r: u32)
        ensures
            r == self.last_id(),
    {
        self.last_id_used
    }

    /// Handles a `Notify` call: allocates the identifier and builds the
    /// notification to show. A call that asks for a fresh identifier after
    /// the last possible one has been used is outside the contract.
    pub fn notify(
        &mut self,
        app_name: String,
        replaces_id: u32,
        app_icon: String,
        summary: String,
        body: String,
        hints: Hints,
    ) -> (n: Notification)
        requires
            replaces_id != 0 || old(self).last_id() < u32::MAX,
        ensures
            n.id == notify_id(old(self).last_id(), replaces_id),
            final(self).last_id() == last_id_after(old(self).last_id(), replaces_id),
            n.app_name == app_name,
            n.app_icon == app_icon,
            n.summary == summary,
            n.body == body,
            n.image == image_from_hints(hints),
    {
        let id = if replaces_id != 0 {
            replaces_id
        } else {
            self.last_id_used = self.last_id_used + 1;
            self.last_id_used
        };
        let image = image_from_hints_exec(hints);
        Notification { id, app_name, app_icon, summary, body, image }
    }
}

/// A notification that asks for no replacement gets an identifier above every
/// identifier handed out before, so it is new; one that asks to replace an
/// identifier gets exactly that identifier and uses up none.
pub proof fn law_fresh_identifier(last_id_used: u32, replaces_id: u32)
    ensures
        replaces_id == 0 ==> notify_id(last_id_used, replaces_id) > last_id_used,
        replaces_id == 0 ==> last_id_after(last_id_used, replaces_id) == notify_id(
            last_id_used,
            replaces_id,
        ),
        replaces_id != 0 ==> notify_id(last_id_used, replaces_id) == replaces_id
            && last_id_after(last_id_used, replaces_id) == last_id_used,
{
}

/// Two notifications in a row that ask for fresh identifiers get different ones.
pub proof fn law_consecutive_fresh_identifiers_differ(last_id_used: u32)
    requires
        last_id_used + 1 < u32::MAX,
    ensures
        notify_id(last_id_used, 0) != notify_id(last_id_after(last_id_used, 0) as u32, 0),
{
}

/// The capabilities the server announces.
pub open spec fn capabilities_spec() -> Seq<Seq<char>> {
    seq!["body"@, "actions"@, "icon-static"@]
}

/// The capabilities the server announces to clients.
pub fn capabilities() -> (r: Vec<String>)
    ensures
        r@.map_values(|s: String| s@) == capabilities_spec(),
{
    let mut r: Vec<String> = Vec::new();
    r.push("body".to_owned());
    r.push("actions".to_owned());
    r.push("icon-static".to_owned());
    assert(r@.map_values(|s: String| s@) =~= capabilities_spec());
    r
}

/// The answer to `GetServerInformation`: name, vendor and version of the
/// server, and the version of the notification specification it follows.
pub fn server_information(name: &str, vendor: &str, version: &str) -> (r: (String, String, String, String))
    ensures
        r.0@ == name@,
        r.1@ == vendor@,
        r.2@ == version@,
        r.3@ == "1.2"@,
{
    (name.to_owned(), vendor.to_owned(), version.to_owned(), "1.2".to_owned())
}

/// The notifications currently shown, by identifier.
pub struct NotificationStore {
    notifications: HashMap<u32, Notification>,
}

impl View for NotificationStore {
    type V = Map<u32, Notification>;

    closed spec fn view(&self) -> Map<u32, Notification> {
        self.notifications@
    }
}

impl NotificationStore {
    /// An empty store.
    pub fn new() -> (r: NotificationStore)
        ensures
            r@ == Map::<u32, Notification>::empty(),
            r@.dom().finite(),
    {
        NotificationStore { notifications: HashMap::new() }
    }

    /// Shows a notification, replacing any shown with the same identifier.
    pub fn insert(&mut self, n: Notification)
        ensures
            final(self)@ == old(self)@.insert(n.id, n),
            final(self)@.dom().finite(),
            final(self)@.len() == old(self)@.len() + (if old(self)@.dom().contains(n.id) {
                0int
            } else {
                1int
            }),
    {
        let id = n.id;
        proof {
            assert(self@.dom().finite());
            if !self@.dom().contains(id) {
                assert(self@.insert(id, n).dom() =~= self@.dom().insert(id));
            } else {
                assert(self@.insert(id, n).dom() =~= self@.dom());
            }
        }
        let _ = self.notifications.insert(id, n);
    }

    /// Closes the notification with this identifier and returns it.
    pub fn remove(&mut self, id: u32) -> (r: Option<Notification>)
        ensures
            final(self)@ == old(self)@.remove(id),
            final(self)@.dom().finite(),
            final(self)@.len() == old(self)@.len() - (if old(self)@.dom().contains(id) {
                1int
            } else {
                0int
            }),
            r == old(self)@.get(id),
    {
        proof {
            assert(self@.dom().finite());
            assert(self@.remove(id).dom() =~= self@.dom().remove(id));
        }
        self.notifications.remove(&id)
    }

    /// The notification shown under this identifier.
    pub fn get(&self, id: u32) -> (r: Option<&Notification>)
        ensures
            r matches Some(n) ==> self@.get(id) == Some(*n),
            r is None ==> self@.get(id) is None,
    {
        self.notifications.get(&id)
    }

    /// The number of notifications shown.
    pub fn len(&self) -> (r: usize)
        ensures
            r == self@.len(),
    {
        self.notifications.len()
    }

    /// A store holds finitely many notifications.
    pub proof fn lemma_finite(&self)
        ensures
            self@.dom().finite(),
    {
    }
}

/// A shown notification is what a later read finds under its identifier, until
/// another notification with that identifier replaces it or it is closed;
/// showing or closing one never changes the others.
pub proof fn law_store_read_after_write(m: Map<u32, Notification>, n: Notification, id: u32)
    ensures
        m.insert(n.id, n).get(n.id) == Some(n),
        id != n.id ==> m.insert(n.id, n).get(id) == m.get(id),
        m.remove(id).get(id) is None,
        forall|k: u32| k != id ==> #[trigger] m.remove(id).get(k) == m.get(k),
{
}

/// What a notification card asks its image to show.
#[derive(Debug)]
pub enum ImageRequest {
    /// Show these pixels (RGB, with the given layout).
    Pixbuf { width: i32, height: i32, rowstride: i32, has_alpha: bool, bits_per_sample: i32, data: Vec<u8> },
    /// Load the image at this location.
    Load(String),
}

pub enum ImageRequestView {
    Pixbuf { width: i32, height: i32, rowstride: i32, has_alpha: bool, bits_per_sample: i32, data: Seq<u8> },
    Load(Seq<char>),
}

impl View for ImageRequest {
    type V = ImageRequestView;

    open spec fn view(&self) -> ImageRequestView {
        match self {
            ImageRequest::Pixbuf { width, height, rowstride, has_alpha, bits_per_sample, data } =>
                ImageRequestView::Pixbuf {
                width: *width,
                height: *height,
                rowstride: *rowstride,
                has_alpha: *has_alpha,
                bits_per_sample: *bits_per_sample,
                data: data@,
            },
            ImageRequest::Load(p) => ImageRequestView::Load(p@),
        }
    }
}

/// Whether a card shows an image, and which: the notification's image, or
/// else its application icon when it names one.
pub open spec fn card_image(n: Notification) -> (bool, Option<ImageRequestView>) {
    match n.image {
        Some(Image::Data { width, height, rowstride, has_alpha, bits_per_sample, channels, data }) => (
            true,
            Some(ImageRequestView::Pixbuf { width, height, rowstride, has_alpha, bits_per_sample, data: data@ }),
        ),
        Some(Image::Path(p)) => (true, Some(ImageRequestView::Load(p@))),
        None => if n.app_icon@.len() > 0 {
            (true, Some(ImageRequestView::Load(n.app_icon@)))
        } else {
            (false, None)
        },
    }
}

/// A card shows the notification's own image when it has one: the path of a
/// path image, or the pixels of a data image with their layout; only a
/// notification without an image falls back to its application icon, and
/// shows nothing when that icon is empty.
pub proof fn law_card_shows_own_image(n: Notification)
    ensures
        n.image matches Some(Image::Path(p)) ==> card_image(n) == (true, Some(ImageRequestView::Load(p@))),
        n.image matches Some(Image::Data { width, height, rowstride, has_alpha, bits_per_sample, channels, data })
            ==> card_image(n) == (
            true,
            Some(
                ImageRequestView::Pixbuf {
                    width,
                    height,
                    rowstride,
                    has_alpha,
                    bits_per_sample,
                    data: data@,
                },
            ),
        ),
        n.image is None && n.app_icon@.len() > 0 ==> card_image(n) == (
            true,
            Some(ImageRequestView::Load(n.app_icon@)),
        ),
        n.image is None && n.app_icon@.len() == 0 ==> card_image(n) == (false, None::<ImageRequestView>),
        card_image(n).0 <==> card_image(n).1 is Some,
{
}

/// A notification card.
pub struct NotificationCard {
    pub notification: Notification,
    pub has_image: bool,
}

impl NotificationCard {
    /// A card for a notification, with the request for its image.
    pub fn init_model(notification: Notification) -> (r: (NotificationCard, Option<ImageRequest>))
        ensures
            r.0.notification == notification,
            (r.0.has_image, match r.1 {
                Some(q) => Some(q@),
                None => None,
            }) == card_image(notification),
    {
        let request = match &notification.image {
            Some(Image::Data { width, height, rowstride, has_alpha, bits_per_sample, channels: _, data }) => {
                Some(
                    ImageRequest::Pixbuf {
                        width: *width,
                        height: *height,
                        rowstride: *rowstride,
                        has_alpha: *has_alpha,
                        bits_per_sample: *bits_per_sample,
                        data: data.clone(),
                    },
                )
            },
            Some(Image::Path(p)) => Some(ImageRequest::Load(p.clone())),
            None => if !notification.app_icon.as_str().is_empty() {
                Some(ImageRequest::Load(notification.app_icon.clone()))
            } else {
                None
            },
        };
        let has_image = request.is_some();
        (NotificationCard { notification, has_image }, request)
    }

    /// The identifier the card asks to close when its close button is pressed.
    pub fn close(&self) -> (r: u32)
        ensures
            r == self.notification.id,
    {
        self.notification.id
    }
}

} // verus!
