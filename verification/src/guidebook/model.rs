//! Entity model of the remote event-guide platform, together with the
//! patch-diff engine.
//!
//! Every entity is a bag of *optional* fields: `None` on the intended side
//! always means "the source does not care about this field", never "clear
//! this field". The patch-diff engine compares an intended and an existing
//! version of the same entity field by field and keeps only the fields
//! that must change; remote-owned fields (the remote ID, the guide, the
//! correlation key) are never diffed.
//!
//! Timestamps are carried as plain UTC seconds and ranks as plain
//! integers, so that the whole model is made of values the verifier can
//! reason about; the boundary code converts to and from the wire types.

use vstd::prelude::*;
use vstd::std_specs::cmp::PartialEqSpec;

verus! {

/// One page of a paginated listing response.
pub struct GuidebookPagedResult<T> {
    pub count: usize,
    pub next: Option<String>,
    pub previous: Option<String>,
    pub results: Vec<T>,
}

/// The minimal patch rule for one optional field: a field is set in the
/// patch exactly when the intended side specifies a value that the
/// existing side does not already carry.
pub open spec fn spec_patch_field<T>(intended: Option<T>, existing: Option<T>) -> Option<T> {
    match intended {
        None => None,
        Some(iv) => match existing {
            None => Some(iv),
            Some(ev) => if iv == ev {
                None
            } else {
                Some(iv)
            },
        },
    }
}

/// True when the `==` of `T` is specified and agrees with mathematical
/// equality, as it does for the plain value types the entity fields use.
pub open spec fn eq_is_equality<T: PartialEq>() -> bool {
    &&& T::obeys_eq_spec()
    &&& forall|a: &T, b: &T| #[trigger] a.eq_spec(b) <==> a == b
}

/// Field-level patch computation for fields of plain value types.
pub fn patch_field<T: PartialEq + Copy>(intended: &Option<T>, existing: &Option<T>) -> (r: Option<
    T,
>)
    ensures
        eq_is_equality::<T>() ==> r == spec_patch_field(*intended, *existing),
{
    match (intended, existing) {
        (None, _) => None,
        (Some(iv), None) => Some(*iv),
        (Some(iv), Some(ev)) => if *iv == *ev {
            None
        } else {
            Some(*iv)
        },
    }
}

/// Field-level patch computation for text fields.
fn patch_field_text(intended: &Option<String>, existing: &Option<String>) -> (r: Option<String>)
    ensures
        r.deep_view() == spec_patch_field(intended.deep_view(), existing.deep_view()),
{
    match (intended, existing) {
        (None, _) => None,
        (Some(iv), None) => {
            let c = iv.clone();
            assert(Some(c).deep_view() == spec_patch_field(
                intended.deep_view(),
                existing.deep_view(),
            ));
            Some(c)
        },
        (Some(iv), Some(ev)) => if *iv == *ev {
            assert(iv@ == ev@);
            None
        } else {
            let c = iv.clone();
            assert(Some(c).deep_view() == spec_patch_field(
                intended.deep_view(),
                existing.deep_view(),
            ));
            Some(c)
        },
    }
}

/// Field-level patch computation for fields holding a list of remote IDs.
fn patch_field_ids(intended: &Option<Vec<u32>>, existing: &Option<Vec<u32>>) -> (r: Option<
    Vec<u32>,
>)
    ensures
        r.deep_view() == spec_patch_field(intended.deep_view(), existing.deep_view()),
{
    match (intended, existing) {
        (None, _) => None,
        (Some(iv), None) => {
            let c = iv.clone();
            assert(c.deep_view() =~= iv.deep_view());
            Some(c)
        },
        (Some(iv), Some(ev)) => {
            assert(iv.deep_view() =~= iv@ && ev.deep_view() =~= ev@);
            if *iv == *ev {
                proof {
                    assert(iv@ =~= ev@);
                }
                None
            } else {
                let c = iv.clone();
                assert(c.deep_view() =~= iv.deep_view());
                proof {
                    if iv@ == ev@ {
                        assert(iv.eq_spec(ev));
                    }
                }
                Some(c)
            }
        },
    }
}

/// Duplicates an optional text field with its contents intact.
pub(crate) fn clone_opt_text(o: &Option<String>) -> (r: Option<String>)
    ensures
        r.deep_view() == o.deep_view(),
{
    match o {
        Some(s) => Some(s.clone()),
        None => None,
    }
}

/// Duplicates an optional list of remote IDs with its contents intact.
pub(crate) fn clone_opt_ids(o: &Option<Vec<u32>>) -> (r: Option<Vec<u32>>)
    ensures
        r.deep_view() == o.deep_view(),
{
    match o {
        Some(v) => {
            let c = v.clone();
            assert(c.deep_view() =~= v.deep_view());
            Some(c)
        },
        None => None,
    }
}

/// A session of the event guide as the remote platform stores it: a talk
/// or similar scheduled item, placed in time, optionally linked to
/// locations and schedule tracks.
pub struct GuidebookSession {
    /// Remote-assigned ID; absent until the session has been created.
    pub id: Option<u32>,
    /// The guide this session belongs to; never diffed.
    pub guide_id: u32,
    pub name: Option<String>,
    pub description_html: Option<String>,
    /// Start of the session, UTC seconds.
    pub start_time: i64,
    /// End of the session, UTC seconds; absent for all-day sessions.
    pub end_time: Option<i64>,
    pub all_day: Option<bool>,
    pub allow_rating: Option<bool>,
    pub add_to_schedule: Option<bool>,
    /// The correlation key joining this session to its desired
    /// counterpart; never diffed.
    pub import_id: Option<String>,
    pub locations: Option<Vec<u32>>,
    pub schedule_tracks: Option<Vec<u32>>,
    pub rank: Option<u32>,
    /// UTC seconds.
    pub registration_start_date: Option<i64>,
    /// UTC seconds.
    pub registration_end_date: Option<i64>,
    pub require_login: Option<bool>,
    pub waitlist: Option<bool>,
    pub max_capacity: Option<u32>,
}

/// Mathematical image of a [`GuidebookSession`]: text as character
/// sequences, ID lists as sequences.
#[verifier::ext_equal]
pub struct GuidebookSessionV {
    pub id: Option<u32>,
    pub guide_id: u32,
    pub name: Option<Seq<char>>,
    pub description_html: Option<Seq<char>>,
    pub start_time: i64,
    pub end_time: Option<i64>,
    pub all_day: Option<bool>,
    pub allow_rating: Option<bool>,
    pub add_to_schedule: Option<bool>,
    pub import_id: Option<Seq<char>>,
    pub locations: Option<Seq<u32>>,
    pub schedule_tracks: Option<Seq<u32>>,
    pub rank: Option<u32>,
    pub registration_start_date: Option<i64>,
    pub registration_end_date: Option<i64>,
    pub require_login: Option<bool>,
    pub waitlist: Option<bool>,
    pub max_capacity: Option<u32>,
}

impl DeepView for GuidebookSession {
    type V = GuidebookSessionV;

    open spec fn deep_view(&self) -> GuidebookSessionV {
        GuidebookSessionV {
            id: self.id,
            guide_id: self.guide_id,
            name: self.name.deep_view(),
            description_html: self.description_html.deep_view(),
            start_time: self.start_time,
            end_time: self.end_time,
            all_day: self.all_day,
            allow_rating: self.allow_rating,
            add_to_schedule: self.add_to_schedule,
            import_id: self.import_id.deep_view(),
            locations: self.locations.deep_view(),
            schedule_tracks: self.schedule_tracks.deep_view(),
            rank: self.rank,
            registration_start_date: self.registration_start_date,
            registration_end_date: self.registration_end_date,
            require_login: self.require_login,
            waitlist: self.waitlist,
            max_capacity: self.max_capacity,
        }
    }
}

impl Clone for GuidebookSession {
    fn clone(&self) -> (r: Self)
        ensures
            r.deep_view() == self.deep_view(),
    {
        let r = GuidebookSession {
            id: self.id,
            guide_id: self.guide_id,
            name: clone_opt_text(&self.name),
            description_html: clone_opt_text(&self.description_html),
            start_time: self.start_time,
            end_time: self.end_time,
            all_day: self.all_day,
            allow_rating: self.allow_rating,
            add_to_schedule: self.add_to_schedule,
            import_id: clone_opt_text(&self.import_id),
            locations: clone_opt_ids(&self.locations),
            schedule_tracks: clone_opt_ids(&self.schedule_tracks),
            rank: self.rank,
            registration_start_date: self.registration_start_date,
            registration_end_date: self.registration_end_date,
            require_login: self.require_login,
            waitlist: self.waitlist,
            max_capacity: self.max_capacity,
        };
        assert(r.deep_view() =~= self.deep_view());
        r
    }
}

/// The minimal patch moving `existing` toward `intended`, field by field.
/// The remote ID is cleared (it rides along separately), and the guide,
/// the start time and the correlation key are never diffed.
pub open spec fn spec_session_patch(
    intended: GuidebookSessionV,
    existing: GuidebookSessionV,
) -> GuidebookSessionV {
    GuidebookSessionV {
        id: None,
        guide_id: existing.guide_id,
        name: spec_patch_field(intended.name, existing.name),
        description_html: spec_patch_field(intended.description_html, existing.description_html),
        start_time: intended.start_time,
        end_time: spec_patch_field(intended.end_time, existing.end_time),
        all_day: spec_patch_field(intended.all_day, existing.all_day),
        allow_rating: spec_patch_field(intended.allow_rating, existing.allow_rating),
        add_to_schedule: spec_patch_field(intended.add_to_schedule, existing.add_to_schedule),
        import_id: existing.import_id,
        locations: spec_patch_field(intended.locations, existing.locations),
        schedule_tracks: spec_patch_field(intended.schedule_tracks, existing.schedule_tracks),
        rank: spec_patch_field(intended.rank, existing.rank),
        registration_start_date: spec_patch_field(
            intended.registration_start_date,
            existing.registration_start_date,
        ),
        registration_end_date: spec_patch_field(
            intended.registration_end_date,
            existing.registration_end_date,
        ),
        require_login: spec_patch_field(intended.require_login, existing.require_login),
        waitlist: spec_patch_field(intended.waitlist, existing.waitlist),
        max_capacity: spec_patch_field(intended.max_capacity, existing.max_capacity),
    }
}

/// True when the patch carries no field at all. Only the diffable fields
/// count: the remote ID, the guide, the start time and the correlation
/// key ride along in every patch without making it non-empty.
pub open spec fn spec_session_patch_is_empty(p: GuidebookSessionV) -> bool {
    &&& p.name is None
    &&& p.description_html is None
    &&& p.end_time is None
    &&& p.all_day is None
    &&& p.allow_rating is None
    &&& p.add_to_schedule is None
    &&& p.locations is None
    &&& p.schedule_tracks is None
    &&& p.rank is None
    &&& p.registration_start_date is None
    &&& p.registration_end_date is None
    &&& p.require_login is None
    &&& p.waitlist is None
    &&& p.max_capacity is None
}

impl GuidebookSession {
    /// True when no diffable field is set, so the patch must not be
    /// submitted for execution.
    pub fn is_empty_patch(&self) -> (r: bool)
        ensures
            r == spec_session_patch_is_empty(self.deep_view()),
    {
        self.name.is_none() && self.description_html.is_none() && self.end_time.is_none()
            && self.all_day.is_none() && self.allow_rating.is_none()
            && self.add_to_schedule.is_none() && self.locations.is_none()
            && self.schedule_tracks.is_none() && self.rank.is_none()
            && self.registration_start_date.is_none() && self.registration_end_date.is_none()
            && self.require_login.is_none() && self.waitlist.is_none()
            && self.max_capacity.is_none()
    }

    /// Computes the minimal field-level patch from `existing` toward
    /// `intended`.
    pub fn generate_patch_diff(intended: &Self, existing: &Self) -> (r: Self)
        ensures
            r.deep_view() == spec_session_patch(intended.deep_view(), existing.deep_view()),
    {
        let r = GuidebookSession {
            id: None,
            guide_id: existing.guide_id,
            name: patch_field_text(&intended.name, &existing.name),
            description_html: patch_field_text(
                &intended.description_html,
                &existing.description_html,
            ),
            start_time: intended.start_time,
            end_time: patch_field(&intended.end_time, &existing.end_time),
            all_day: patch_field(&intended.all_day, &existing.all_day),
            allow_rating: patch_field(&intended.allow_rating, &existing.allow_rating),
            add_to_schedule: patch_field(&intended.add_to_schedule, &existing.add_to_schedule),
            import_id: clone_opt_text(&existing.import_id),
            locations: patch_field_ids(&intended.locations, &existing.locations),
            schedule_tracks: patch_field_ids(
                &intended.schedule_tracks,
                &existing.schedule_tracks,
            ),
            rank: patch_field(&intended.rank, &existing.rank),
            registration_start_date: patch_field(
                &intended.registration_start_date,
                &existing.registration_start_date,
            ),
            registration_end_date: patch_field(
                &intended.registration_end_date,
                &existing.registration_end_date,
            ),
            require_login: patch_field(&intended.require_login, &existing.require_login),
            waitlist: patch_field(&intended.waitlist, &existing.waitlist),
            max_capacity: patch_field(&intended.max_capacity, &existing.max_capacity),
        };
        assert(r.deep_view() =~= spec_session_patch(intended.deep_view(), existing.deep_view()));
        r
    }
}

/// A presenter as the remote platform stores it (a custom-list item).
pub struct GuidebookPresenter {
    /// Remote-assigned ID; absent until the presenter has been created.
    pub id: Option<u32>,
    /// The guide this presenter belongs to; never diffed.
    pub guide_id: u32,
    pub name: Option<String>,
    pub description_html: Option<String>,
    /// Shown below the name; carries the presenter's institutions.
    pub subtitle: Option<String>,
    pub allow_rating: Option<bool>,
    /// Correlation key; never diffed.
    pub import_id: Option<String>,
    pub locations: Option<Vec<u32>>,
    pub contact_email: Option<String>,
}

/// Mathematical image of a [`GuidebookPresenter`].
#[verifier::ext_equal]
pub struct GuidebookPresenterV {
    pub id: Option<u32>,
    pub guide_id: u32,
    pub name: Option<Seq<char>>,
    pub description_html: Option<Seq<char>>,
    pub subtitle: Option<Seq<char>>,
    pub allow_rating: Option<bool>,
    pub import_id: Option<Seq<char>>,
    pub locations: Option<Seq<u32>>,
    pub contact_email: Option<Seq<char>>,
}

impl DeepView for GuidebookPresenter {
    type V = GuidebookPresenterV;

    open spec fn deep_view(&self) -> GuidebookPresenterV {
        GuidebookPresenterV {
            id: self.id,
            guide_id: self.guide_id,
            name: self.name.deep_view(),
            description_html: self.description_html.deep_view(),
            subtitle: self.subtitle.deep_view(),
            allow_rating: self.allow_rating,
            import_id: self.import_id.deep_view(),
            locations: self.locations.deep_view(),
            contact_email: self.contact_email.deep_view(),
        }
    }
}

impl Clone for GuidebookPresenter {
    fn clone(&self) -> (r: Self)
        ensures
            r.deep_view() == self.deep_view(),
    {
        let r = GuidebookPresenter {
            id: self.id,
            guide_id: self.guide_id,
            name: clone_opt_text(&self.name),
            description_html: clone_opt_text(&self.description_html),
            subtitle: clone_opt_text(&self.subtitle),
            allow_rating: self.allow_rating,
            import_id: clone_opt_text(&self.import_id),
            locations: clone_opt_ids(&self.locations),
            contact_email: clone_opt_text(&self.contact_email),
        };
        assert(r.deep_view() =~= self.deep_view());
        r
    }
}

/// The minimal patch moving an existing presenter toward the intended
/// one; the remote ID, the guide and the correlation key are never
/// diffed.
pub open spec fn spec_presenter_patch(
    intended: GuidebookPresenterV,
    existing: GuidebookPresenterV,
) -> GuidebookPresenterV {
    GuidebookPresenterV {
        id: None,
        guide_id: existing.guide_id,
        name: spec_patch_field(intended.name, existing.name),
        description_html: spec_patch_field(intended.description_html, existing.description_html),
        subtitle: spec_patch_field(intended.subtitle, existing.subtitle),
        allow_rating: spec_patch_field(intended.allow_rating, existing.allow_rating),
        import_id: existing.import_id,
        locations: spec_patch_field(intended.locations, existing.locations),
        contact_email: spec_patch_field(intended.contact_email, existing.contact_email),
    }
}

/// True when the presenter patch carries no diffable field.
pub open spec fn spec_presenter_patch_is_empty(p: GuidebookPresenterV) -> bool {
    &&& p.name is None
    &&& p.description_html is None
    &&& p.subtitle is None
    &&& p.allow_rating is None
    &&& p.locations is None
    &&& p.contact_email is None
}

impl GuidebookPresenter {
    /// True when no diffable field is set.
    pub fn is_empty_patch(&self) -> (r: bool)
        ensures
            r == spec_presenter_patch_is_empty(self.deep_view()),
    {
        self.name.is_none() && self.description_html.is_none() && self.subtitle.is_none()
            && self.allow_rating.is_none() && self.locations.is_none()
            && self.contact_email.is_none()
    }

    /// Computes the minimal field-level patch from `existing` toward
    /// `intended`.
    pub fn generate_patch_diff(intended: &Self, existing: &Self) -> (r: Self)
        ensures
            r.deep_view() == spec_presenter_patch(intended.deep_view(), existing.deep_view()),
    {
        let r = GuidebookPresenter {
            id: None,
            guide_id: existing.guide_id,
            name: patch_field_text(&intended.name, &existing.name),
            description_html: patch_field_text(
                &intended.description_html,
                &existing.description_html,
            ),
            subtitle: patch_field_text(&intended.subtitle, &existing.subtitle),
            allow_rating: patch_field(&intended.allow_rating, &existing.allow_rating),
            import_id: clone_opt_text(&existing.import_id),
            locations: patch_field_ids(&intended.locations, &existing.locations),
            contact_email: patch_field_text(&intended.contact_email, &existing.contact_email),
        };
        assert(r.deep_view() =~= spec_presenter_patch(intended.deep_view(), existing.deep_view()));
        r
    }
}

/// A schedule track (strand or intended audience) of the event guide.
pub struct GuidebookScheduleTrack {
    /// Remote-assigned ID; absent until the track has been created.
    pub id: Option<u32>,
    pub guide_id: u32,
    pub name: Option<String>,
    pub description_html: Option<String>,
    /// Display colour, `#RRGGBB`; derived outside the verified core.
    pub color: Option<String>,
    pub import_id: Option<String>,
}

/// Mathematical image of a [`GuidebookScheduleTrack`].
#[verifier::ext_equal]
pub struct GuidebookScheduleTrackV {
    pub id: Option<u32>,
    pub guide_id: u32,
    pub name: Option<Seq<char>>,
    pub description_html: Option<Seq<char>>,
    pub color: Option<Seq<char>>,
    pub import_id: Option<Seq<char>>,
}

impl DeepView for GuidebookScheduleTrack {
    type V = GuidebookScheduleTrackV;

    open spec fn deep_view(&self) -> GuidebookScheduleTrackV {
        GuidebookScheduleTrackV {
            id: self.id,
            guide_id: self.guide_id,
            name: self.name.deep_view(),
            description_html: self.description_html.deep_view(),
            color: self.color.deep_view(),
            import_id: self.import_id.deep_view(),
        }
    }
}

impl Clone for GuidebookScheduleTrack {
    fn clone(&self) -> (r: Self)
        ensures
            r.deep_view() == self.deep_view(),
    {
        let r = GuidebookScheduleTrack {
            id: self.id,
            guide_id: self.guide_id,
            name: clone_opt_text(&self.name),
            description_html: clone_opt_text(&self.description_html),
            color: clone_opt_text(&self.color),
            import_id: clone_opt_text(&self.import_id),
        };
        assert(r.deep_view() =~= self.deep_view());
        r
    }
}

/// A location of the event guide.
pub struct GuidebookLocation {
    /// Remote-assigned ID; absent until the location has been created.
    pub id: Option<u32>,
    pub guide_id: u32,
    pub name: Option<String>,
    pub description_html: Option<String>,
    pub import_id: Option<String>,
}

/// Mathematical image of a [`GuidebookLocation`].
#[verifier::ext_equal]
pub struct GuidebookLocationV {
    pub id: Option<u32>,
    pub guide_id: u32,
    pub name: Option<Seq<char>>,
    pub description_html: Option<Seq<char>>,
    pub import_id: Option<Seq<char>>,
}

impl DeepView for GuidebookLocation {
    type V = GuidebookLocationV;

    open spec fn deep_view(&self) -> GuidebookLocationV {
        GuidebookLocationV {
            id: self.id,
            guide_id: self.guide_id,
            name: self.name.deep_view(),
            description_html: self.description_html.deep_view(),
            import_id: self.import_id.deep_view(),
        }
    }
}

impl Clone for GuidebookLocation {
    fn clone(&self) -> (r: Self)
        ensures
            r.deep_view() == self.deep_view(),
    {
        let r = GuidebookLocation {
            id: self.id,
            guide_id: self.guide_id,
            name: clone_opt_text(&self.name),
            description_html: clone_opt_text(&self.description_html),
            import_id: clone_opt_text(&self.import_id),
        };
        assert(r.deep_view() =~= self.deep_view());
        r
    }
}

/// Patch minimality for sessions: the patch sets a field exactly when the
/// intended side specifies a value that differs from the existing one
/// (and then sets it to the intended value), and the patch is empty
/// exactly when zero fields differ in that sense.
pub proof fn lemma_session_patch_minimality(
    intended: GuidebookSessionV,
    existing: GuidebookSessionV,
)
    ensures
        spec_session_patch(intended, existing).name == (if intended.name is Some && intended.name
            != existing.name {
            intended.name
        } else {
            None
        }),
        spec_session_patch(intended, existing).description_html == (if intended.description_html
            is Some && intended.description_html != existing.description_html {
            intended.description_html
        } else {
            None
        }),
        spec_session_patch(intended, existing).end_time == (if intended.end_time is Some
            && intended.end_time != existing.end_time {
            intended.end_time
        } else {
            None
        }),
        spec_session_patch(intended, existing).all_day == (if intended.all_day is Some
            && intended.all_day != existing.all_day {
            intended.all_day
        } else {
            None
        }),
        spec_session_patch(intended, existing).allow_rating == (if intended.allow_rating is Some
            && intended.allow_rating != existing.allow_rating {
            intended.allow_rating
        } else {
            None
        }),
        spec_session_patch(intended, existing).add_to_schedule == (if intended.add_to_schedule
            is Some && intended.add_to_schedule != existing.add_to_schedule {
            intended.add_to_schedule
        } else {
            None
        }),
        spec_session_patch(intended, existing).locations == (if intended.locations is Some
            && intended.locations != existing.locations {
            intended.locations
        } else {
            None
        }),
        spec_session_patch(intended, existing).schedule_tracks == (if intended.schedule_tracks
            is Some && intended.schedule_tracks != existing.schedule_tracks {
            intended.schedule_tracks
        } else {
            None
        }),
        spec_session_patch(intended, existing).rank == (if intended.rank is Some && intended.rank
            != existing.rank {
            intended.rank
        } else {
            None
        }),
        spec_session_patch(intended, existing).registration_start_date == (if
            intended.registration_start_date is Some && intended.registration_start_date
            != existing.registration_start_date {
            intended.registration_start_date
        } else {
            None
        }),
        spec_session_patch(intended, existing).registration_end_date == (if
            intended.registration_end_date is Some && intended.registration_end_date
            != existing.registration_end_date {
            intended.registration_end_date
        } else {
            None
        }),
        spec_session_patch(intended, existing).require_login == (if intended.require_login is Some
            && intended.require_login != existing.require_login {
            intended.require_login
        } else {
            None
        }),
        spec_session_patch(intended, existing).waitlist == (if intended.waitlist is Some
            && intended.waitlist != existing.waitlist {
            intended.waitlist
        } else {
            None
        }),
        spec_session_patch(intended, existing).max_capacity == (if intended.max_capacity is Some
            && intended.max_capacity != existing.max_capacity {
            intended.max_capacity
        } else {
            None
        }),
        spec_session_patch_is_empty(spec_session_patch(intended, existing)) <==> {
            &&& (intended.name is Some ==> intended.name == existing.name)
            &&& (intended.description_html is Some ==> intended.description_html
                == existing.description_html)
            &&& (intended.end_time is Some ==> intended.end_time == existing.end_time)
            &&& (intended.all_day is Some ==> intended.all_day == existing.all_day)
            &&& (intended.allow_rating is Some ==> intended.allow_rating == existing.allow_rating)
            &&& (intended.add_to_schedule is Some ==> intended.add_to_schedule
                == existing.add_to_schedule)
            &&& (intended.locations is Some ==> intended.locations == existing.locations)
            &&& (intended.schedule_tracks is Some ==> intended.schedule_tracks
                == existing.schedule_tracks)
            &&& (intended.rank is Some ==> intended.rank == existing.rank)
            &&& (intended.registration_start_date is Some ==> intended.registration_start_date
                == existing.registration_start_date)
            &&& (intended.registration_end_date is Some ==> intended.registration_end_date
                == existing.registration_end_date)
            &&& (intended.require_login is Some ==> intended.require_login
                == existing.require_login)
            &&& (intended.waitlist is Some ==> intended.waitlist == existing.waitlist)
            &&& (intended.max_capacity is Some ==> intended.max_capacity == existing.max_capacity)
        },
{
}

/// Patch minimality for presenters, stated as for sessions.
pub proof fn lemma_presenter_patch_minimality(
    intended: GuidebookPresenterV,
    existing: GuidebookPresenterV,
)
    ensures
        spec_presenter_patch(intended, existing).name == (if intended.name is Some && intended.name
            != existing.name {
            intended.name
        } else {
            None
        }),
        spec_presenter_patch(intended, existing).description_html == (if intended.description_html
            is Some && intended.description_html != existing.description_html {
            intended.description_html
        } else {
            None
        }),
        spec_presenter_patch(intended, existing).subtitle == (if intended.subtitle is Some
            && intended.subtitle != existing.subtitle {
            intended.subtitle
        } else {
            None
        }),
        spec_presenter_patch(intended, existing).allow_rating == (if intended.allow_rating is Some
            && intended.allow_rating != existing.allow_rating {
            intended.allow_rating
        } else {
            None
        }),
        spec_presenter_patch(intended, existing).locations == (if intended.locations is Some
            && intended.locations != existing.locations {
            intended.locations
        } else {
            None
        }),
        spec_presenter_patch(intended, existing).contact_email == (if intended.contact_email
            is Some && intended.contact_email != existing.contact_email {
            intended.contact_email
        } else {
            None
        }),
        spec_presenter_patch_is_empty(spec_presenter_patch(intended, existing)) <==> {
            &&& (intended.name is Some ==> intended.name == existing.name)
            &&& (intended.description_html is Some ==> intended.description_html
                == existing.description_html)
            &&& (intended.subtitle is Some ==> intended.subtitle == existing.subtitle)
            &&& (intended.allow_rating is Some ==> intended.allow_rating == existing.allow_rating)
            &&& (intended.locations is Some ==> intended.locations == existing.locations)
            &&& (intended.contact_email is Some ==> intended.contact_email
                == existing.contact_email)
        },
{
}

} // verus!
