//! The content of the help page.

use vstd::prelude::*;

verus! {

/// One entry of the help page: what a key does, the keys, and a remark.
pub struct HelpItem {
    pub description: String,
    pub keys: Vec<String>,
    pub observation: Option<String>,
}

/// A titled group of help entries.
pub struct HelpSection {
    pub title: String,
    pub items: Vec<HelpItem>,
}

/// The help page.
pub struct CocoHelp {
    pub sections: Vec<HelpSection>,
}

/// The rows of a page: per section a title row and a row per item, and one
/// blank row between each two sections.
pub open spec fn rows_of(sections: Seq<HelpSection>) -> nat
    decreases sections.len(),
{
    if sections.len() == 0 {
        0
    } else if sections.len() == 1 {
        sections[0].items@.len() + 1
    } else {
        rows_of(sections.drop_last()) + 1 + sections.last().items@.len() + 1
    }
}

fn item(description: &str, keys: &[&str], observation: Option<&str>) -> (r: HelpItem)
    ensures
        r.description@ == description@,
        r.keys@.len() == keys@.len(),
        forall|i: int| 0 <= i < keys@.len() ==> #[trigger] r.keys@[i]@ == keys@[i]@,
        match observation {
            Some(o) => r.observation matches Some(t) && t@ == o@,
            None => r.observation is None,
        },
{
    let mut ks: Vec<String> = Vec::new();
    let mut i: usize = 0;
    while i < keys.len()
        invariant
            i <= keys@.len(),
            ks@.len() == i,
            forall|j: int| 0 <= j < i ==> #[trigger] ks@[j]@ == keys@[j]@,
        decreases keys@.len() - i,
    {
        ks.push(String::from_str(keys[i]));
        i = i + 1;
    }
    HelpItem {
        description: String::from_str(description),
        keys: ks,
        observation: match observation {
            Some(o) => Some(String::from_str(o)),
            None => None,
        },
    }
}

/// Whether a help entry has this description and these keys, and no remark.
pub open spec fn item_is(item: HelpItem, description: Seq<char>, keys: Seq<Seq<char>>) -> bool {
    &&& item.description@ == description
    &&& item.keys@.len() == keys.len()
    &&& forall|i: int| 0 <= i < keys.len() ==> #[trigger] item.keys@[i]@ == keys[i]
}

/// The sections of the help page: the help toggle, the general keys, the
/// keys of the text fields and those of the switches.
pub fn help_sections() -> (r: Vec<HelpSection>)
    ensures
        r@.len() == 4,
        r@[0].items@.len() == 1,
        r@[1].items@.len() == 3,
        r@[2].items@.len() == 2,
        r@[3].items@.len() == 4,
        r@[0].title@ == "Help"@,
        item_is(r@[0].items@[0], "Toggle this help on and off"@, seq!["F2"@]),
        r@[1].title@ == "General"@,
        item_is(r@[1].items@[0], "Exit"@, seq!["ctrl+c"@]),
        item_is(r@[1].items@[1], "Go to the next step"@, seq!["pg-dn"@]),
        item_is(r@[1].items@[2], "Go to the previous step"@, seq!["pg-up"@]),
        r@[2].title@ == "Text Areas"@,
        item_is(r@[2].items@[0], "Submit"@, seq!["enter"@]),
        item_is(
            r@[2].items@[1],
            "New Line / carriage return"@,
            seq!["shift+enter"@, "alt+enter"@, "ctrl+enter"@],
        ),
        r@[2].items@[1].observation matches Some(o) && o@ == "depends on the terminal"@,
        r@[3].title@ == "Switch"@,
        item_is(r@[3].items@[0], "Toggle the switch"@, seq!["space"@]),
        item_is(r@[3].items@[1], "Set the switch to true"@, seq!["🠆"@]),
        item_is(r@[3].items@[2], "Set the switch to false"@, seq!["🠄"@]),
        item_is(r@[3].items@[3], "Accept"@, seq!["enter"@]),
{
    let mut help: Vec<HelpItem> = Vec::new();
    help.push(item("Toggle this help on and off", &["F2"], None));
    let mut general: Vec<HelpItem> = Vec::new();
    general.push(item("Exit", &["ctrl+c"], None));
    general.push(item("Go to the next step", &["pg-dn"], None));
    general.push(item("Go to the previous step", &["pg-up"], None));
    let mut text_areas: Vec<HelpItem> = Vec::new();
    text_areas.push(item("Submit", &["enter"], None));
    text_areas.push(
        item(
            "New Line / carriage return",
            &["shift+enter", "alt+enter", "ctrl+enter"],
            Some("depends on the terminal"),
        ),
    );
    let mut switch: Vec<HelpItem> = Vec::new();
    switch.push(item("Toggle the switch", &["space"], None));
    switch.push(item("Set the switch to true", &["🠆"], None));
    switch.push(item("Set the switch to false", &["🠄"], None));
    switch.push(item("Accept", &["enter"], None));
    let mut sections: Vec<HelpSection> = Vec::new();
    sections.push(HelpSection { title: String::from_str("Help"), items: help });
    sections.push(HelpSection { title: String::from_str("General"), items: general });
    sections.push(HelpSection { title: String::from_str("Text Areas"), items: text_areas });
    sections.push(HelpSection { title: String::from_str("Switch"), items: switch });
    sections
}

impl CocoHelp {
    pub fn new(sections: Vec<HelpSection>) -> (r: CocoHelp)
        ensures
            r.sections@ == sections@,
    {
        CocoHelp { sections }
    }

    /// The rows the page takes, capped at the largest `u16`.
    pub fn total_height(&self) -> (r: u16)
        ensures
            r == crate::commit::cap_u16(rows_of(self.sections@)),
    {
        let mut rows: u128 = 0;
        let mut i: usize = 0;
        while i < self.sections.len()
            invariant
                i <= self.sections@.len(),
                rows <= 65535,
                rows == (if rows_of(self.sections@.take(i as int)) > 65535 {
                    65535nat
                } else {
                    rows_of(self.sections@.take(i as int))
                }),
            decreases self.sections@.len() - i,
        {
            let ghost part = self.sections@.take(i + 1);
            assert(part.drop_last() =~= self.sections@.take(i as int));
            assert(part.last() == self.sections@[i as int]);
            let items = self.sections[i].items.len();
            let add: u128 = if items > 65535 {
                65535
            } else if i == 0 {
                items as u128 + 1
            } else {
                items as u128 + 2
            };
            if i == 0 {
                assert(part =~= seq![self.sections@[0]]);
            }
            rows = if rows + add > 65535 {
                65535
            } else {
                rows + add
            };
            i = i + 1;
        }
        assert(self.sections@.take(self.sections@.len() as int) =~= self.sections@);
        rows as u16
    }
}

} // verus!
