//! The settings modal: shortcut sections as lines of text, and its scrolling.

use vstd::prelude::*;
use crate::shortcuts::{ShortcutDisplay, ShortcutSection};
use crate::strings::{pad_right, pad_right_string, push_char};
use crate::ui::layout::percent_of;

verus! {

/// One shortcut as listed in the settings modal.
#[derive(Debug, Clone)]
pub struct SettingsItemView {
    pub keys: String,
    pub action: String,
}

/// A titled group of shortcuts in the settings modal.
#[derive(Debug, Clone)]
pub struct SettingsSectionView {
    pub title: String,
    pub items: Vec<SettingsItemView>,
}

/// The settings modal.
#[derive(Debug, Clone)]
pub struct SettingsModal<'a> {
    pub title: &'a str,
    pub sections: Vec<SettingsSectionView>,
    pub scroll: u16,
    pub width_percent: u16,
    pub height_percent: u16,
    pub key_width: usize,
}

/// A line of the settings modal.
#[derive(Debug, Clone, PartialEq, Eq)]
pub enum SettingsLine {
    /// A section title.
    Title(String),
    /// A shortcut: its keys column (indented by two spaces and padded) and its action.
    Item { keys: String, action: String },
    /// The blank line after a section.
    Blank,
}

/// A settings line as text.
pub enum SettingsLineView {
    Title(Seq<char>),
    Item(Seq<char>, Seq<char>),
    Blank,
}

impl SettingsLine {
    pub open spec fn view(&self) -> SettingsLineView {
        match self {
            SettingsLine::Title(t) => SettingsLineView::Title(t@),
            SettingsLine::Item { keys, action } => SettingsLineView::Item(keys@, action@),
            SettingsLine::Blank => SettingsLineView::Blank,
        }
    }
}

/// The keys column of an item: two spaces and the keys padded to `key_width`.
pub open spec fn keys_column(keys: Seq<char>, key_width: nat) -> Seq<char> {
    seq![' ', ' '] + pad_right(keys, key_width)
}

/// The item lines of `items`.
pub open spec fn item_lines(items: Seq<SettingsItemView>, key_width: nat) -> Seq<SettingsLineView> {
    Seq::new(
        items.len(),
        |i: int| SettingsLineView::Item(keys_column(items[i].keys@, key_width), items[i].action@),
    )
}

/// The lines of `sections`: each section's title, its items, and a blank line.
pub open spec fn section_lines(sections: Seq<SettingsSectionView>, key_width: nat) -> Seq<
    SettingsLineView,
>
    decreases sections.len(),
{
    if sections.len() == 0 {
        seq![]
    } else {
        let s = sections.last();
        section_lines(sections.drop_last(), key_width) + seq![SettingsLineView::Title(s.title@)]
            + item_lines(s.items@, key_width) + seq![SettingsLineView::Blank]
    }
}

impl SettingsItemView {
    /// The listing of a shortcut.
    pub fn from_shortcut(value: ShortcutDisplay) -> (r: Self)
        ensures
            r.keys@ == value.keys@,
            r.action@ == value.action@,
    {
        SettingsItemView { keys: String::from_str(value.keys), action: String::from_str(value.action) }
    }
}

impl SettingsSectionView {
    /// The listing of a shortcut section.
    pub fn from_section(value: ShortcutSection) -> (r: Self)
        ensures
            r.title@ == value.title@,
            r.items@.len() == value.items@.len(),
            forall|i: int|
                0 <= i < r.items@.len() ==> (#[trigger] r.items@[i]).keys@ == value.items@[i].keys@
                    && r.items@[i].action@ == value.items@[i].action@,
    {
        let ghost source = value.items@;
        let mut rest = value.items;
        let mut items: Vec<SettingsItemView> = Vec::new();
        while rest.len() > 0
            invariant
                items@.len() + rest@.len() == source.len(),
                rest@ == source.skip(items@.len() as int),
                forall|j: int|
                    0 <= j < items@.len() ==> (#[trigger] items@[j]).keys@ == source[j].keys@
                        && items@[j].action@ == source[j].action@,
            decreases rest@.len(),
        {
            let d = rest.remove(0);
            items.push(SettingsItemView::from_shortcut(d));
            assert(rest@ =~= source.skip(items@.len() as int));
        }
        SettingsSectionView { title: String::from_str(value.title), items }
    }
}

impl<'a> SettingsModal<'a> {
    /// A modal titled `title` over `sections`, scrolled to the top, covering
    /// 80% of the area, with a 16 character keys column.
    pub fn new(title: &'a str, sections: Vec<SettingsSectionView>) -> (r: Self)
        ensures
            r.title == title,
            r.sections == sections,
            r.scroll == 0,
            r.width_percent == 80,
            r.height_percent == 80,
            r.key_width == 16,
    {
        SettingsModal {
            title,
            sections,
            scroll: 0,
            width_percent: 80,
            height_percent: 80,
            key_width: 16,
        }
    }

    /// A modal over the listings of the shortcut sections `sections`.
    pub fn from_shortcuts(title: &'a str, sections: Vec<ShortcutSection>) -> (r: Self)
        ensures
            r.title == title,
            r.sections@.len() == sections@.len(),
            forall|i: int|
                0 <= i < r.sections@.len() ==> {
                    let s = #[trigger] r.sections@[i];
                    let t = sections@[i];
                    &&& s.title@ == t.title@
                    &&& s.items@.len() == t.items@.len()
                    &&& forall|k: int|
                        0 <= k < s.items@.len() ==> (#[trigger] s.items@[k]).keys@
                            == t.items@[k].keys@ && s.items@[k].action@ == t.items@[k].action@
                },
            r.scroll == 0,
            r.width_percent == 80,
            r.height_percent == 80,
            r.key_width == 16,
    {
        let ghost source = sections@;
        let mut rest = sections;
        let mut views: Vec<SettingsSectionView> = Vec::new();
        while rest.len() > 0
            invariant
                views@.len() + rest@.len() == source.len(),
                rest@ == source.skip(views@.len() as int),
                forall|j: int|
                    0 <= j < views@.len() ==> {
                        let s = #[trigger] views@[j];
                        let t = source[j];
                        &&& s.title@ == t.title@
                        &&& s.items@.len() == t.items@.len()
                        &&& forall|k: int|
                            0 <= k < s.items@.len() ==> (#[trigger] s.items@[k]).keys@
                                == t.items@[k].keys@ && s.items@[k].action@
                                == t.items@[k].action@
                    },
            decreases rest@.len(),
        {
            let section = rest.remove(0);
            views.push(SettingsSectionView::from_section(section));
            assert(rest@ =~= source.skip(views@.len() as int));
        }
        Self::new(title, views)
    }

    /// The lines of the modal: per section its title, one line per shortcut,
    /// and a blank line.
    pub fn lines(&self) -> (r: Vec<SettingsLine>)
        ensures
            r@.map_values(|l: SettingsLine| l.view()) == section_lines(
                self.sections@,
                self.key_width as nat,
            ),
    {
        let mut lines: Vec<SettingsLine> = Vec::new();
        let n = self.sections.len();
        let mut i: usize = 0;
        while i < n
            invariant
                i <= n == self.sections@.len(),
                lines@.map_values(|l: SettingsLine| l.view()) == section_lines(
                    self.sections@.take(i as int),
                    self.key_width as nat,
                ),
            decreases n - i,
        {
            let section = &self.sections[i];
            let ghost before = lines@.map_values(|l: SettingsLine| l.view());
            lines.push(SettingsLine::Title(section.title.clone()));
            let m = section.items.len();
            let mut k: usize = 0;
            while k < m
                invariant
                    k <= m == section.items@.len(),
                    lines@.map_values(|l: SettingsLine| l.view()) == before + seq![
                        SettingsLineView::Title(section.title@),
                    ] + item_lines(section.items@.take(k as int), self.key_width as nat),
                decreases m - k,
            {
                let item = &section.items[k];
                let mut keys = String::new();
                push_char(&mut keys, ' ');
                push_char(&mut keys, ' ');
                let padded = pad_right_string(item.keys.as_str(), self.key_width);
                keys.append(padded.as_str());
                assert(keys@ =~= keys_column(item.keys@, self.key_width as nat));
                let ghost mid = lines@;
                lines.push(SettingsLine::Item { keys, action: item.action.clone() });
                assert(lines@.map_values(|l: SettingsLine| l.view()) =~= mid.map_values(
                    |l: SettingsLine| l.view(),
                ).push(SettingsLineView::Item(keys_column(item.keys@, self.key_width as nat), item.action@)));
                assert(item_lines(section.items@.take(k + 1), self.key_width as nat) =~= item_lines(
                    section.items@.take(k as int),
                    self.key_width as nat,
                ).push(SettingsLineView::Item(keys_column(item.keys@, self.key_width as nat), item.action@)));
                assert(lines@.map_values(|l: SettingsLine| l.view()) =~= before + seq![
                        SettingsLineView::Title(section.title@),
                    ] + item_lines(section.items@.take(k + 1), self.key_width as nat));
                k = k + 1;
            }
            lines.push(SettingsLine::Blank);
            assert(section.items@.take(m as int) =~= section.items@);
            assert(self.sections@.take(i + 1).drop_last() =~= self.sections@.take(i as int));
            assert(lines@.map_values(|l: SettingsLine| l.view()) =~= section_lines(
                self.sections@.take(i + 1),
                self.key_width as nat,
            ));
            i = i + 1;
        }
        assert(self.sections@.take(n as int) =~= self.sections@);
        lines
    }

    /// The modal's size in an area `outer_width` by `outer_height`: the
    /// configured percentages (at most all) of it, at least one cell each way.
    pub fn size_in(&self, outer_width: u16, outer_height: u16) -> (r: (u16, u16))
        ensures
            r.0 == if percent_of(outer_width, self.width_percent) >= 1 {
                percent_of(outer_width, self.width_percent)
            } else {
                1
            },
            r.1 == if percent_of(outer_height, self.height_percent) >= 1 {
                percent_of(outer_height, self.height_percent)
            } else {
                1
            },
    {
        let w = crate::ui::layout::scaled_size(outer_width, self.width_percent);
        let h = crate::ui::layout::scaled_size(outer_height, self.height_percent);
        (if w >= 1 {
            w
        } else {
            1
        }, if h >= 1 {
            h
        } else {
            1
        })
    }

    /// The scroll offset shown for `total` lines in a viewport of `viewport`
    /// lines, and the largest offset: the scroll is kept within the lines
    /// that do not fit.
    pub fn scroll_in(&self, total: u16, viewport: u16) -> (r: (u16, u16))
        ensures
            r.1 == if total > viewport {
                total - viewport
            } else {
                0
            },
            r.0 == if self.scroll < r.1 {
                self.scroll
            } else {
                r.1
            },
    {
        let max_scroll = total.saturating_sub(viewport);
        let clamped = if self.scroll < max_scroll {
            self.scroll
        } else {
            max_scroll
        };
        (clamped, max_scroll)
    }
}

/// The lines of sections one after another are the lines of the first
/// sections followed by those of the rest, so the sections keep their order.
pub proof fn law_section_lines_keep_order(
    a: Seq<SettingsSectionView>,
    b: Seq<SettingsSectionView>,
    key_width: nat,
)
    ensures
        section_lines(a + b, key_width) == section_lines(a, key_width) + section_lines(b, key_width),
    decreases b.len(),
{
    if b.len() == 0 {
        assert(a + b =~= a);
        assert(section_lines(a, key_width) + section_lines(b, key_width) =~= section_lines(
            a,
            key_width,
        ));
    } else {
        law_section_lines_keep_order(a, b.drop_last(), key_width);
        assert((a + b).drop_last() =~= a + b.drop_last());
        assert((a + b).last() == b.last());
        let s = b.last();
        assert(section_lines(a + b, key_width) =~= section_lines(a, key_width) + section_lines(
            b,
            key_width,
        ));
    }
}

/// The lines of one section: its title, one line per shortcut in the given
/// order (the keys column, then the action), and a blank line.
pub proof fn law_single_section_lines(s: SettingsSectionView, key_width: nat)
    ensures
        section_lines(seq![s], key_width).len() == s.items@.len() + 2,
        section_lines(seq![s], key_width)[0] == SettingsLineView::Title(s.title@),
        forall|i: int|
            0 <= i < s.items@.len() ==> #[trigger] section_lines(seq![s], key_width)[i + 1]
                == SettingsLineView::Item(
                seq![' ', ' '] + pad_right(s.items@[i].keys@, key_width),
                s.items@[i].action@,
            ),
        section_lines(seq![s], key_width)[s.items@.len() + 1int] == SettingsLineView::Blank,
{
    let one = seq![s];
    assert(one.drop_last() =~= Seq::<SettingsSectionView>::empty());
    assert(one.last() == s);
    assert(section_lines(Seq::<SettingsSectionView>::empty(), key_width) =~= Seq::<
        SettingsLineView,
    >::empty());
    let l = section_lines(one, key_width);
    assert(l =~= seq![SettingsLineView::Title(s.title@)] + item_lines(s.items@, key_width) + seq![
        SettingsLineView::Blank,
    ]);
    assert forall|i: int| 0 <= i < s.items@.len() implies #[trigger] l[i + 1] == SettingsLineView::Item(
        seq![' ', ' '] + pad_right(s.items@[i].keys@, key_width),
        s.items@[i].action@,
    ) by {
        assert(l[i + 1] == item_lines(s.items@, key_width)[i]);
    }
}

} // verus!
