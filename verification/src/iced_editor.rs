//! The editor with a message-driven interface: its settings, and the name of its application.

use vstd::prelude::*;

use crate::resize_hint::ResizeHint;
use crate::text::{characters, contains_text, find_part, first_occurrence, occurs_at, text_of};

verus! {

/// Settings of an editor. `L` is a size in logical pixels, `X` refines the resize hint.
pub struct IcedNiceSettings<L, X> {
    /// The window title
    pub title: String,
    /// Whether and how the host may resize the editor. The default is not resizable.
    pub resize_hint: ResizeHint<L, X>,
    /// Ignore key inputs, except for modifier keys such as SHIFT and ALT
    ///
    /// By default this is set to `false`.
    pub ignore_non_modifier_keys: bool,
    /// Always redraw whenever the window updates instead of only when the application wants to
    /// update it. That a window becomes visible does not trigger a redraw by itself, and animations
    /// would otherwise need a timer that sends redraw messages.
    ///
    /// By default this is set to `false`.
    pub always_redraw: bool,
}

impl<L, X> IcedNiceSettings<L, X> {
    /// Settings with an empty title and an editor that is not resizable. `refinement` is the default
    /// refinement of the resize hint.
    pub fn new(refinement: X) -> (r: IcedNiceSettings<L, X>)
        ensures
            r.title@ == Seq::<char>::empty(),
            r.resize_hint == ResizeHint::<L, X>::fixed(refinement),
            !r.ignore_non_modifier_keys,
            !r.always_redraw,
    {
        IcedNiceSettings {
            title: String::new(),
            resize_hint: ResizeHint::new(refinement),
            ignore_non_modifier_keys: false,
            always_redraw: false,
        }
    }

    /// These settings with another title.
    pub open spec fn titled(self, title: String) -> IcedNiceSettings<L, X> {
        IcedNiceSettings { title, ..self }
    }

    /// These settings with another resize hint.
    pub open spec fn hinted(self, resize_hint: ResizeHint<L, X>) -> IcedNiceSettings<L, X> {
        IcedNiceSettings { resize_hint, ..self }
    }

    /// These settings, ignoring keys or not.
    pub open spec fn ignoring(self, ignore: bool) -> IcedNiceSettings<L, X> {
        IcedNiceSettings { ignore_non_modifier_keys: ignore, ..self }
    }

    /// These settings, always redrawing or not.
    pub open spec fn redrawing(self, always_redraw: bool) -> IcedNiceSettings<L, X> {
        IcedNiceSettings { always_redraw, ..self }
    }

    /// Use the given window title
    pub fn with_tile(self, title: String) -> (r: IcedNiceSettings<L, X>)
        ensures
            r == (IcedNiceSettings { title, ..self }),
            r == self.titled(title),
    {
        IcedNiceSettings {
            title,
            resize_hint: self.resize_hint,
            ignore_non_modifier_keys: self.ignore_non_modifier_keys,
            always_redraw: self.always_redraw,
        }
    }

    /// Use the given hint on whether and how the host may resize the editor.
    pub fn with_resize_hint(self, resize_hint: ResizeHint<L, X>) -> (r: IcedNiceSettings<L, X>)
        ensures
            r == (IcedNiceSettings { resize_hint, ..self }),
            r == self.hinted(resize_hint),
    {
        IcedNiceSettings {
            title: self.title,
            resize_hint,
            ignore_non_modifier_keys: self.ignore_non_modifier_keys,
            always_redraw: self.always_redraw,
        }
    }

    /// Ignore key inputs, except for modifier keys such as SHIFT and ALT
    pub fn with_ignore_non_modifier_keys(self, ignore: bool) -> (r: IcedNiceSettings<L, X>)
        ensures
            r == (IcedNiceSettings { ignore_non_modifier_keys: ignore, ..self }),
            r == self.ignoring(ignore),
    {
        IcedNiceSettings {
            title: self.title,
            resize_hint: self.resize_hint,
            ignore_non_modifier_keys: ignore,
            always_redraw: self.always_redraw,
        }
    }

    /// Always redraw whenever the window updates.
    pub fn with_always_redraw(self, always_redraw: bool) -> (r: IcedNiceSettings<L, X>)
        ensures
            r == (IcedNiceSettings { always_redraw, ..self }),
            r == self.redrawing(always_redraw),
    {
        IcedNiceSettings {
            title: self.title,
            resize_hint: self.resize_hint,
            ignore_non_modifier_keys: self.ignore_non_modifier_keys,
            always_redraw,
        }
    }
}

/// An editor that builds an application from its state each time that it opens.
pub struct IcedEditor<E, P, N, B, L, X> {
    pub editor_state: E,
    /// State which persists between editor opens. It is taken out while an application has it.
    pub persistent_state: Option<P>,
    /// Set to make the application poll for updates and redraw.
    pub notifier: N,
    pub settings: IcedNiceSettings<L, X>,
    /// The function which builds the application.
    pub build: B,
}

/// Creates an editor.
///
/// * `editor_state` - The initial state of the editor.
/// * `persistent_state` - Custom state which persists between editor opens.
/// * `notifier` - Notifies the application when it should poll for new updates and redraw.
/// * `settings` - Additional settings for the editor.
/// * `build` - The function which builds the application.
pub fn create_iced_editor<E, P, N, B, L, X>(
    editor_state: E,
    persistent_state: P,
    notifier: N,
    settings: IcedNiceSettings<L, X>,
    build: B,
) -> (r: Option<IcedEditor<E, P, N, B, L, X>>)
    ensures
        r == Some(
            (IcedEditor {
                editor_state,
                persistent_state: Some(persistent_state),
                notifier,
                settings,
                build,
            }),
        ),
{
    Some(
        IcedEditor {
            editor_state,
            persistent_state: Some(persistent_state),
            notifier,
            settings,
            build,
        },
    )
}

/// `name` is the part of a path before the first `::`, or the whole path where it has none.
pub open spec fn first_segment(path: Seq<char>, name: Seq<char>) -> bool {
    &&& forall|i: int| #[trigger]
        first_occurrence(path, "::"@, i) ==> name == path.take(i)
    &&& !contains_text(path, "::"@) ==> name == path
}

/// The name of an application whose state has the given type: the crate that defines the type.
pub fn application_name(type_path: &str) -> (r: String)
    ensures
        first_segment(type_path@, r@),
{
    let chars: Vec<char> = characters(type_path);
    let ghost path = type_path@;
    proof {
        assert(path.subrange(0, path.len() as int) =~= path);
    }
    match find_part(&chars, 0, chars.len(), "::") {
        Some(end) => {
            proof {
                assert forall|i: int| #[trigger] first_occurrence(path, "::"@, i) implies i == end by {
                    if i < end {
                        assert(occurs_at(path, "::"@, i));
                    }
                    if end < i {
                        assert(occurs_at(path, "::"@, end as int));
                    }
                }
                assert(path.take(end as int) =~= path.subrange(0, end as int));
            }
            text_of(&chars, 0, end)
        },
        None => text_of(&chars, 0, chars.len()),
    }
}

/// Every path has exactly one first segment.
pub proof fn the_first_segment_is_unique(path: Seq<char>, a: Seq<char>, b: Seq<char>)
    requires
        first_segment(path, a),
        first_segment(path, b),
    ensures
        a == b,
{
    if contains_text(path, "::"@) {
        let i = choose|i: int| occurs_at(path, "::"@, i);
        let k = first_of(path, "::"@, i);
        assert(first_occurrence(path, "::"@, k));
    }
}

/// Where a part occurs, it has a first occurrence.
proof fn first_of(text: Seq<char>, part: Seq<char>, i: int) -> (k: int)
    requires
        occurs_at(text, part, i),
    ensures
        first_occurrence(text, part, k),
    decreases i,
{
    if exists|j: int| 0 <= j < i && #[trigger] occurs_at(text, part, j) {
        let j = choose|j: int| 0 <= j < i && #[trigger] occurs_at(text, part, j);
        first_of(text, part, j)
    } else {
        i
    }
}

/// An application's name is the beginning of the path, up to the first `::`: it has no `::` in it,
/// and it is followed by one or by nothing.
pub proof fn a_name_is_the_beginning_of_its_path(path: Seq<char>, name: Seq<char>)
    requires
        first_segment(path, name),
    ensures
        name.len() <= path.len(),
        forall|i: int| 0 <= i < name.len() ==> #[trigger] name[i] == path[i],
        forall|i: int| !#[trigger] occurs_at(name, "::"@, i),
        name.len() < path.len() ==> name.len() + 2 <= path.len() && path[name.len() as int] == ':'
            && path[name.len() as int + 1] == ':',
{
    reveal_strlit("::");
    if contains_text(path, "::"@) {
        let i = choose|i: int| occurs_at(path, "::"@, i);
        let k = first_of(path, "::"@, i);
        assert(first_occurrence(path, "::"@, k));
        assert(name == path.take(k));
        assert(path.subrange(k, k + 2)[0] == "::"@[0]);
        assert(path.subrange(k, k + 2)[1] == "::"@[1]);
        assert forall|j: int| !#[trigger] occurs_at(name, "::"@, j) by {
            if occurs_at(name, "::"@, j) {
                assert(path.subrange(j, j + 2) =~= name.subrange(j, j + 2));
                assert(occurs_at(path, "::"@, j));
                assert(j < k);
            }
        }
    } else {
        assert forall|j: int| !#[trigger] occurs_at(name, "::"@, j) by {
            assert(!occurs_at(path, "::"@, j));
        }
    }
}

/// Each setting is changed by itself: the last value that was given counts, and no other setting
/// changes.
pub proof fn settings_are_changed_one_by_one<L, X>(
    settings: IcedNiceSettings<L, X>,
    title: String,
    resize_hint: ResizeHint<L, X>,
    ignore: bool,
    always_redraw: bool,
)
    ensures
        settings.titled(title).title == title,
        settings.titled(title).resize_hint == settings.resize_hint,
        settings.titled(title).ignore_non_modifier_keys == settings.ignore_non_modifier_keys,
        settings.titled(title).always_redraw == settings.always_redraw,
        settings.hinted(resize_hint).resize_hint == resize_hint,
        settings.hinted(resize_hint).title == settings.title,
        settings.hinted(resize_hint).ignore_non_modifier_keys == settings.ignore_non_modifier_keys,
        settings.hinted(resize_hint).always_redraw == settings.always_redraw,
        settings.ignoring(ignore).ignore_non_modifier_keys == ignore,
        settings.ignoring(ignore).title == settings.title,
        settings.ignoring(ignore).resize_hint == settings.resize_hint,
        settings.ignoring(ignore).always_redraw == settings.always_redraw,
        settings.redrawing(always_redraw).always_redraw == always_redraw,
        settings.redrawing(always_redraw).title == settings.title,
        settings.redrawing(always_redraw).resize_hint == settings.resize_hint,
        settings.redrawing(always_redraw).ignore_non_modifier_keys
            == settings.ignore_non_modifier_keys,
{
}

} // verus!
