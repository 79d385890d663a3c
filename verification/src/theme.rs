//! The theme: all the style sheets that one document writes.

use crate::color::{
    color_of, decode_color, lemma_color_fault_is_of_document, lemma_color_of_is_plain, plain_map,
    resolved, Color, ColorMap,
};
use crate::document::{document, read};
use crate::error::{Error, ErrorKind, Fault};
use crate::layout::Vector;
use crate::node::{lookup, Node, Tree};
use crate::number::half;
use crate::sheets::{
    default_name, initialized, lemma_section_fault_is_of_document,
    lemma_unnamed_default_is_baseline, node_model, sheet_map_of, SheetMap,
};
use crate::strings::lower;
use crate::widget::{
    button, checkbox, container, image, image_viewer, pick_list, progress_bar, qr_code, radio,
    scrollable, slider, svg, text, text_input,
};
use vstd::string::StringSliceAdditionalSpecFns;
use vstd::prelude::*;

verus! {

/// The style sheets of an application: the colours that its document names, and for each
/// kind of widget the variants of its style sheet.
///
/// A theme is made whole from one document and never changed afterwards.
#[derive(Debug)]
pub struct Theme {
    color: ColorMap,
    button: button::Button,
    checkbox: checkbox::Checkbox,
    container: container::Container,
    image: image::Image,
    image_viewer: image_viewer::Viewer,
    pick_list: pick_list::PickList,
    progress_bar: progress_bar::ProgressBar,
    qr_code: qr_code::QRCode,
    radio: radio::Radio,
    scrollable: scrollable::Scrollable,
    slider: slider::Slider,
    svg: svg::Svg,
    text: text::Text,
    text_input: text_input::TextInput,
}

/// The mathematical model of a [`Theme`].
pub struct ThemeModel {
    pub color: Map<Seq<char>, Color>,
    pub button: Map<Seq<char>, button::StyleSheet>,
    pub checkbox: Map<Seq<char>, checkbox::StyleSheet>,
    pub container: Map<Seq<char>, container::StyleSheet>,
    pub image: Map<Seq<char>, image::StyleSheet>,
    pub image_viewer: Map<Seq<char>, image_viewer::StyleSheet>,
    pub pick_list: Map<Seq<char>, pick_list::StyleSheet>,
    pub progress_bar: Map<Seq<char>, progress_bar::StyleSheet>,
    pub qr_code: Map<Seq<char>, qr_code::StyleSheet>,
    pub radio: Map<Seq<char>, radio::StyleSheet>,
    pub scrollable: Map<Seq<char>, scrollable::StyleSheet>,
    pub slider: Map<Seq<char>, slider::StyleSheet>,
    pub svg: Map<Seq<char>, svg::StyleSheet>,
    pub text: Map<Seq<char>, text::StyleSheet>,
    pub text_input: Map<Seq<char>, text_input::StyleSheet>,
}

impl View for Theme {
    type V = ThemeModel;

    closed spec fn view(&self) -> ThemeModel {
        ThemeModel {
            color: self.color@,
            button: self.button@,
            checkbox: self.checkbox@,
            container: self.container@,
            image: self.image@,
            image_viewer: self.image_viewer@,
            pick_list: self.pick_list@,
            progress_bar: self.progress_bar@,
            qr_code: self.qr_code@,
            radio: self.radio@,
            scrollable: self.scrollable@,
            slider: self.slider@,
            svg: self.svg@,
            text: self.text@,
            text_input: self.text_input@,
        }
    }
}

/// The colours that the first `n` entries of the colour section name, each under its name in
/// lower case, a later entry replacing an earlier one of its name; the fault of the first
/// entry that writes no colour.
///
/// A colour of this section can be given by a built-in name, not by another name of the
/// section.
pub open spec fn colors_of(entries: Seq<(Seq<char>, Tree)>, n: nat) -> Result<
    Map<Seq<char>, Color>,
    Fault,
>
    decreases n,
{
    if n == 0 {
        Ok(Map::empty())
    } else {
        match colors_of(entries, (n - 1) as nat) {
            Err(e) => Err(e),
            Ok(m) => match color_of(entries[n - 1].1, Map::empty()) {
                Err(e) => Err(e),
                Ok(color) => Ok(m.insert(lower(entries[n - 1].0), color)),
            },
        }
    }
}

/// The colours that the colour section names. A section left out names none, and a section
/// that is no table is a fault.
pub open spec fn aliases_of(node: Option<Tree>) -> Result<Map<Seq<char>, Color>, Fault> {
    match node {
        None => Ok(Map::empty()),
        Some(Tree::Table(entries)) => colors_of(entries, entries.len()),
        Some(_) => Err(Fault::Shape),
    }
}

/// Once an entry is at fault, the fault stays whatever follows.
pub proof fn lemma_color_fault_stays(entries: Seq<(Seq<char>, Tree)>, k: nat, n: nat)
    requires
        k <= n,
        colors_of(entries, k) is Err,
    ensures
        colors_of(entries, n) == colors_of(entries, k),
    decreases n,
{
    if k < n {
        lemma_color_fault_stays(entries, k, (n - 1) as nat);
    }
}

/// The theme that a document writes.
///
/// The document is a table. Its key `color` holds the colours that it names, and the key of
/// each kind of widget the variants of that kind; other keys count for nothing. The colours
/// are read first, so that every section sees all of them, wherever it stands in the document.
/// The fault is that of the colours if they are at fault, else that of the first kind of
/// widget, in the order of the declaration, that is at fault.
pub open spec fn theme_of(t: Tree) -> Result<ThemeModel, Fault> {
    let color = aliases_of(t.field("color"@));
    if !(t is Table) {
        Err(Fault::Shape)
    } else if color is Err {
        Err(color->Err_0)
    } else {
        widgets_of(t, color->Ok_0)
    }
}

/// The theme of a document whose colours are `local`.
pub open spec fn widgets_of(t: Tree, local: Map<Seq<char>, Color>) -> Result<ThemeModel, Fault> {
    let button = sheet_map_of::<button::StyleSheet>(t.field("button"@), local);
    let checkbox = sheet_map_of::<checkbox::StyleSheet>(t.field("checkbox"@), local);
    let container = sheet_map_of::<container::StyleSheet>(t.field("container"@), local);
    let image = sheet_map_of::<image::StyleSheet>(t.field("image"@), local);
    let image_viewer = sheet_map_of::<image_viewer::StyleSheet>(t.field("image_viewer"@), local);
    let pick_list = sheet_map_of::<pick_list::StyleSheet>(t.field("pick_list"@), local);
    let progress_bar = sheet_map_of::<progress_bar::StyleSheet>(t.field("progress_bar"@), local);
    let qr_code = sheet_map_of::<qr_code::StyleSheet>(t.field("qr_code"@), local);
    let radio = sheet_map_of::<radio::StyleSheet>(t.field("radio"@), local);
    let scrollable = sheet_map_of::<scrollable::StyleSheet>(t.field("scrollable"@), local);
    let slider = sheet_map_of::<slider::StyleSheet>(t.field("slider"@), local);
    let svg = sheet_map_of::<svg::StyleSheet>(t.field("svg"@), local);
    let text = sheet_map_of::<text::StyleSheet>(t.field("text"@), local);
    let text_input = sheet_map_of::<text_input::StyleSheet>(t.field("text_input"@), local);
    if button is Err {
        Err(button->Err_0)
    } else if checkbox is Err {
        Err(checkbox->Err_0)
    } else if container is Err {
        Err(container->Err_0)
    } else if image is Err {
        Err(image->Err_0)
    } else if image_viewer is Err {
        Err(image_viewer->Err_0)
    } else if pick_list is Err {
        Err(pick_list->Err_0)
    } else if progress_bar is Err {
        Err(progress_bar->Err_0)
    } else if qr_code is Err {
        Err(qr_code->Err_0)
    } else if radio is Err {
        Err(radio->Err_0)
    } else if scrollable is Err {
        Err(scrollable->Err_0)
    } else if slider is Err {
        Err(slider->Err_0)
    } else if svg is Err {
        Err(svg->Err_0)
    } else if text is Err {
        Err(text->Err_0)
    } else if text_input is Err {
        Err(text_input->Err_0)
    } else {
        Ok(
            ThemeModel {
                color: local,
                button: button->Ok_0,
                checkbox: checkbox->Ok_0,
                container: container->Ok_0,
                image: image->Ok_0,
                image_viewer: image_viewer->Ok_0,
                pick_list: pick_list->Ok_0,
                progress_bar: progress_bar->Ok_0,
                qr_code: qr_code->Ok_0,
                radio: radio->Ok_0,
                scrollable: scrollable->Ok_0,
                slider: slider->Ok_0,
                svg: svg->Ok_0,
                text: text->Ok_0,
                text_input: text_input->Ok_0,
            },
        )
    }
}

/// The theme of a document: that of its tree, and a fault of syntax where the bytes are no
/// TOML document.
pub open spec fn theme_of_bytes(bytes: Seq<u8>) -> Option<Result<ThemeModel, Fault>> {
    match read(bytes) {
        Some(t) => Some(theme_of(t)),
        None => None,
    }
}

/// What the host read from a file: its bytes, or the reason why there are none.
pub open spec fn content_model(content: Result<Vec<u8>, String>) -> Result<Seq<u8>, Seq<char>> {
    match content {
        Ok(bytes) => Ok(bytes@),
        Err(message) => Err(message@),
    }
}

/// Whether `r` is what the content of a file makes: the fault of reading where the file could
/// not be read, a fault of syntax where its bytes are no document, and else what the document
/// writes. The words of a fault of syntax are the parser's and are left open.
pub open spec fn loaded(content: Result<Seq<u8>, Seq<char>>, r: Result<ThemeModel, Fault>) -> bool {
    match content {
        Err(message) => r == Err::<ThemeModel, Fault>(Fault::Io(message)),
        Ok(bytes) => match theme_of_bytes(bytes) {
            Some(expected) => r == expected,
            None => r is Err && r->Err_0 is Syntax,
        },
    }
}

/// The model of a result that holds a theme.
pub open spec fn theme_outcome(r: Result<Theme, Error>) -> Result<ThemeModel, Fault> {
    match r {
        Ok(theme) => Ok(theme@),
        Err(e) => Err(e@),
    }
}

impl ThemeModel {
    /// The theme of a document that says nothing: no colours, and of each kind of widget the
    /// default variant alone, which sets nothing.
    pub open spec fn plain() -> ThemeModel {
        ThemeModel {
            color: Map::empty(),
            button: initialized::<button::StyleSheet>(Map::empty()),
            checkbox: initialized::<checkbox::StyleSheet>(Map::empty()),
            container: initialized::<container::StyleSheet>(Map::empty()),
            image: initialized::<image::StyleSheet>(Map::empty()),
            image_viewer: initialized::<image_viewer::StyleSheet>(Map::empty()),
            pick_list: initialized::<pick_list::StyleSheet>(Map::empty()),
            progress_bar: initialized::<progress_bar::StyleSheet>(Map::empty()),
            qr_code: initialized::<qr_code::StyleSheet>(Map::empty()),
            radio: initialized::<radio::StyleSheet>(Map::empty()),
            scrollable: initialized::<scrollable::StyleSheet>(Map::empty()),
            slider: initialized::<slider::StyleSheet>(Map::empty()),
            svg: initialized::<svg::StyleSheet>(Map::empty()),
            text: initialized::<text::StyleSheet>(Map::empty()),
            text_input: initialized::<text_input::StyleSheet>(Map::empty()),
        }
    }

    /// Whether every kind of widget has its default variant.
    pub open spec fn has_defaults(self) -> bool {
        &&& self.button.contains_key(default_name())
        &&& self.checkbox.contains_key(default_name())
        &&& self.container.contains_key(default_name())
        &&& self.image.contains_key(default_name())
        &&& self.image_viewer.contains_key(default_name())
        &&& self.pick_list.contains_key(default_name())
        &&& self.progress_bar.contains_key(default_name())
        &&& self.qr_code.contains_key(default_name())
        &&& self.radio.contains_key(default_name())
        &&& self.scrollable.contains_key(default_name())
        &&& self.slider.contains_key(default_name())
        &&& self.svg.contains_key(default_name())
        &&& self.text.contains_key(default_name())
        &&& self.text_input.contains_key(default_name())
    }
}

/// Reads the colours that a document names.
fn decode_aliases(node: Option<&Node>) -> (r: Result<ColorMap, Error>)
    ensures
        match r {
            Ok(m) => aliases_of(node_model(node)) == Ok::<Map<Seq<char>, Color>, Fault>(m@),
            Err(e) => aliases_of(node_model(node)) == Err::<Map<Seq<char>, Color>, Fault>(e@),
        },
{
    let section = match node {
        None => {
            return Ok(ColorMap::new());
        },
        Some(section) => section,
    };
    let entries = match section.as_table() {
        None => {
            return Err(Error::Shape);
        },
        Some(entries) => entries,
    };
    let ghost model = section@->Table_0;
    let builtin_only = ColorMap::new();
    let mut out = ColorMap::with_capacity(entries.len());
    let mut i: usize = 0;
    while i < entries.len()
        invariant
            i <= entries.len(),
            node_model(node) == Some(Tree::Table(model)),
            model.len() == entries@.len(),
            builtin_only@ == Map::<Seq<char>, Color>::empty(),
            forall|j: int|
                0 <= j < entries@.len() ==> (#[trigger] model[j]) == (
                    entries@[j].0@,
                    entries@[j].1@,
                ),
            colors_of(model, i as nat) == Ok::<Map<Seq<char>, Color>, Fault>(out@),
        decreases entries.len() - i,
    {
        assert(model[i as int] == (entries@[i as int].0@, entries@[i as int].1@));
        match decode_color(&entries[i].1, &builtin_only) {
            Err(e) => {
                proof {
                    lemma_color_fault_stays(model, (i + 1) as nat, model.len());
                }
                return Err(e);
            },
            Ok(color) => {
                out.insert(entries[i].0.as_str(), color);
            },
        }
        i += 1;
    }
    Ok(out)
}

impl Theme {
    /// Makes the theme of a document.
    ///
    /// The result is the theme that the document writes, and its fault where it writes none.
    #[verifier::rlimit(40)]
    pub fn from_node(doc: &Node) -> (r: Result<Theme, Error>)
        ensures
            theme_outcome(r) == theme_of(doc@),
    {
        if doc.as_table().is_none() {
            return Err(Error::Shape);
        }
        let color = decode_aliases(doc.get("color"))?;
        let button = SheetMap::<button::StyleSheet>::decode(doc.get("button"), &color)?;
        let checkbox = SheetMap::<checkbox::StyleSheet>::decode(doc.get("checkbox"), &color)?;
        let container = SheetMap::<container::StyleSheet>::decode(doc.get("container"), &color)?;
        let image = SheetMap::<image::StyleSheet>::decode(doc.get("image"), &color)?;
        let image_viewer = SheetMap::<image_viewer::StyleSheet>::decode(
            doc.get("image_viewer"),
            &color,
        )?;
        let pick_list = SheetMap::<pick_list::StyleSheet>::decode(doc.get("pick_list"), &color)?;
        let progress_bar = SheetMap::<progress_bar::StyleSheet>::decode(
            doc.get("progress_bar"),
            &color,
        )?;
        let qr_code = SheetMap::<qr_code::StyleSheet>::decode(doc.get("qr_code"), &color)?;
        let radio = SheetMap::<radio::StyleSheet>::decode(doc.get("radio"), &color)?;
        let scrollable = SheetMap::<scrollable::StyleSheet>::decode(doc.get("scrollable"), &color)?;
        let slider = SheetMap::<slider::StyleSheet>::decode(doc.get("slider"), &color)?;
        let svg = SheetMap::<svg::StyleSheet>::decode(doc.get("svg"), &color)?;
        let text = SheetMap::<text::StyleSheet>::decode(doc.get("text"), &color)?;
        let text_input = SheetMap::<text_input::StyleSheet>::decode(doc.get("text_input"), &color)?;
        Ok(
            Theme {
                color,
                button,
                checkbox,
                container,
                image,
                image_viewer,
                pick_list,
                progress_bar,
                qr_code,
                radio,
                scrollable,
                slider,
                svg,
                text,
                text_input,
            },
        )
    }

    /// Makes the theme of a document in TOML, given as bytes.
    ///
    /// Where the bytes are a document, the result is the theme that the document writes, or
    /// its fault. Where they are not, it is an error of syntax.
    pub fn from_bytes(bytes: &[u8]) -> (r: Result<Theme, Error>)
        ensures
            loaded(Ok(bytes@), theme_outcome(r)),
    {
        let doc = document(bytes)?;
        Theme::from_node(&doc)
    }

    /// Makes the theme of a document in TOML, given as text.
    ///
    /// The text counts by its bytes in UTF-8, as [`Theme::from_bytes`] reads them.
    pub fn from_str(s: &str) -> (r: Result<Theme, Error>)
        ensures
            loaded(Ok(s.spec_bytes()), theme_outcome(r)),
    {
        Theme::from_bytes(s.as_bytes())
    }

    /// Makes the theme of what the host read from a file: the bytes of the file, or the words
    /// in which the system said why it gave none.
    ///
    /// Where the file could not be read the result is an error of reading with these
    /// words. Else it is what [`Theme::from_bytes`] makes of the bytes.
    pub fn from_file(content: Result<Vec<u8>, String>) -> (r: Result<Theme, Error>)
        ensures
            loaded(content_model(content), theme_outcome(r)),
    {
        match content {
            Err(message) => Err(Error::Io(message)),
            Ok(bytes) => Theme::from_bytes(bytes.as_slice()),
        }
    }

    /// The colours that the document names.
    pub fn color(&self) -> (r: &ColorMap)
        ensures
            r@ == self@.color,
    {
        &self.color
    }

    /// The style sheets of buttons.
    pub fn button(&self) -> (r: &button::Button)
        ensures
            r@ == self@.button,
    {
        &self.button
    }

    /// The style sheets of checkboxes.
    pub fn checkbox(&self) -> (r: &checkbox::Checkbox)
        ensures
            r@ == self@.checkbox,
    {
        &self.checkbox
    }

    /// The style sheets of containers.
    pub fn container(&self) -> (r: &container::Container)
        ensures
            r@ == self@.container,
    {
        &self.container
    }

    /// The style sheets of images.
    pub fn image(&self) -> (r: &image::Image)
        ensures
            r@ == self@.image,
    {
        &self.image
    }

    /// The style sheets of image viewers.
    pub fn image_viewer(&self) -> (r: &image_viewer::Viewer)
        ensures
            r@ == self@.image_viewer,
    {
        &self.image_viewer
    }

    /// The style sheets of pick lists.
    pub fn pick_list(&self) -> (r: &pick_list::PickList)
        ensures
            r@ == self@.pick_list,
    {
        &self.pick_list
    }

    /// The style sheets of progress bars.
    pub fn progress_bar(&self) -> (r: &progress_bar::ProgressBar)
        ensures
            r@ == self@.progress_bar,
    {
        &self.progress_bar
    }

    /// The style sheets of QR codes.
    pub fn qr_code(&self) -> (r: &qr_code::QRCode)
        ensures
            r@ == self@.qr_code,
    {
        &self.qr_code
    }

    /// The style sheets of radio buttons.
    pub fn radio(&self) -> (r: &radio::Radio)
        ensures
            r@ == self@.radio,
    {
        &self.radio
    }

    /// The style sheets of scrollables.
    pub fn scrollable(&self) -> (r: &scrollable::Scrollable)
        ensures
            r@ == self@.scrollable,
    {
        &self.scrollable
    }

    /// The style sheets of sliders.
    pub fn slider(&self) -> (r: &slider::Slider)
        ensures
            r@ == self@.slider,
    {
        &self.slider
    }

    /// The style sheets of vector graphics.
    pub fn svg(&self) -> (r: &svg::Svg)
        ensures
            r@ == self@.svg,
    {
        &self.svg
    }

    /// The style sheets of text.
    pub fn text(&self) -> (r: &text::Text)
        ensures
            r@ == self@.text,
    {
        &self.text
    }

    /// The style sheets of text inputs.
    pub fn text_input(&self) -> (r: &text_input::TextInput)
        ensures
            r@ == self@.text_input,
    {
        &self.text_input
    }

}

impl std::str::FromStr for Theme {
    type Err = Error;

    /// Makes the theme of a document in TOML, as [`Theme::from_str`] does.
    fn from_str(s: &str) -> (r: Result<Theme, Error>)
        ensures
            loaded(Ok(s.spec_bytes()), theme_outcome(r)),
    {
        Theme::from_bytes(s.as_bytes())
    }
}

impl Default for Theme {
    /// The theme of a document that says nothing.
    fn default() -> (r: Theme)
        ensures
            r@ == ThemeModel::plain(),
    {
        Theme {
            color: ColorMap::new(),
            button: SheetMap::new(),
            checkbox: SheetMap::new(),
            container: SheetMap::new(),
            image: SheetMap::new(),
            image_viewer: SheetMap::new(),
            pick_list: SheetMap::new(),
            progress_bar: SheetMap::new(),
            qr_code: SheetMap::new(),
            radio: SheetMap::new(),
            scrollable: SheetMap::new(),
            slider: SheetMap::new(),
            svg: SheetMap::new(),
            text: SheetMap::new(),
            text_input: SheetMap::new(),
        }
    }
}

/// A document without entries writes the theme that says nothing, in which the default
/// variant of every kind of widget is the sheet that sets nothing.
pub proof fn lemma_empty_document_is_plain()
    ensures
        theme_of(Tree::empty_table()) == Ok::<ThemeModel, Fault>(ThemeModel::plain()),
        ThemeModel::plain().button[default_name()] == button::StyleSheet::plain(),
        ThemeModel::plain().checkbox[default_name()] == checkbox::StyleSheet::plain(),
        ThemeModel::plain().container[default_name()] == container::StyleSheet::plain(),
        ThemeModel::plain().image[default_name()] == image::StyleSheet::plain(),
        ThemeModel::plain().image_viewer[default_name()] == image_viewer::StyleSheet::plain(),
        ThemeModel::plain().pick_list[default_name()] == pick_list::StyleSheet::plain(),
        ThemeModel::plain().progress_bar[default_name()] == progress_bar::StyleSheet::plain(),
        ThemeModel::plain().qr_code[default_name()] == qr_code::StyleSheet::plain(),
        ThemeModel::plain().radio[default_name()] == radio::StyleSheet::plain(),
        ThemeModel::plain().scrollable[default_name()] == scrollable::StyleSheet::plain(),
        ThemeModel::plain().slider[default_name()] == slider::StyleSheet::plain(),
        ThemeModel::plain().svg[default_name()] == svg::StyleSheet::plain(),
        ThemeModel::plain().text[default_name()] == text::StyleSheet::plain(),
        ThemeModel::plain().text_input[default_name()] == text_input::StyleSheet::plain(),
{
    reveal(sheet_map_of);
    reveal(lookup);
}

/// Every theme that a document writes has the default variant of every kind of widget.
pub proof fn lemma_theme_has_defaults(t: Tree)
    requires
        theme_of(t) is Ok,
    ensures
        theme_of(t)->Ok_0.has_defaults(),
{
    reveal(sheet_map_of);
}

/// Where the document has no section for buttons, or one that names no default variant, the
/// default button of the theme is the sheet that sets nothing. The same holds of every kind,
/// by [`lemma_unnamed_default_is_baseline`].
pub proof fn lemma_unnamed_default_button_is_plain(t: Tree)
    requires
        theme_of(t) is Ok,
        t.field("button"@) matches Some(Tree::Table(entries)) ==> forall|i: int|
            0 <= i < entries.len() ==> (#[trigger] entries[i]).0 != default_name(),
    ensures
        theme_of(t)->Ok_0.button[default_name()] == button::StyleSheet::plain(),
{
    let local = aliases_of(t.field("color"@))->Ok_0;
    lemma_unnamed_default_is_baseline::<button::StyleSheet>(t.field("button"@), local);
}

/// A theme depends on its document through what each key of the document holds, and on
/// nothing else: not on the order of the sections, nor on where the colours stand among them.
pub proof fn lemma_order_of_sections_is_free(a: Tree, b: Tree)
    requires
        a is Table,
        b is Table,
        forall|key: Seq<char>| a.field(key) == b.field(key),
    ensures
        theme_of(a) == theme_of(b),
{
}

/// Every entry of the colour section gives its name, in lower case, a colour.
pub proof fn lemma_entries_are_named(entries: Seq<(Seq<char>, Tree)>, n: nat, i: int)
    requires
        n <= entries.len(),
        0 <= i < n,
        colors_of(entries, n) is Ok,
    ensures
        colors_of(entries, n)->Ok_0.contains_key(lower(entries[i].0)),
    decreases n,
{
    if i < n - 1 {
        lemma_entries_are_named(entries, (n - 1) as nat, i);
    }
}

/// A colour that the document names resolves in every section, wherever the colour section
/// stands: where the theme is made, the name of any entry of the colour section, in any case
/// of its letters, stands for a colour among the colours of the theme.
pub proof fn lemma_named_color_resolves(t: Tree, i: int, name: Seq<char>)
    requires
        theme_of(t) is Ok,
        t.field("color"@) matches Some(Tree::Table(entries)) && 0 <= i < entries.len() && lower(
            name,
        ) == lower(entries[i].0),
    ensures
        resolved(name, theme_of(t)->Ok_0.color) is Ok,
        color_of(Tree::Text(name), theme_of(t)->Ok_0.color) is Ok,
{
    let entries = t.field("color"@)->Some_0->Table_0;
    lemma_entries_are_named(entries, entries.len(), i);
}

/// No colour of the colour section is halved.
pub proof fn lemma_colors_of_are_plain(entries: Seq<(Seq<char>, Tree)>, n: nat)
    requires
        colors_of(entries, n) is Ok,
    ensures
        plain_map(colors_of(entries, n)->Ok_0),
    decreases n,
{
    if n > 0 {
        lemma_colors_of_are_plain(entries, (n - 1) as nat);
        lemma_color_of_is_plain(entries[n - 1].1, Map::empty());
    }
}

/// No colour that a theme has from its document is halved.
pub proof fn lemma_theme_colors_are_plain(t: Tree)
    requires
        theme_of(t) is Ok,
    ensures
        plain_map(theme_of(t)->Ok_0.color),
{
    match t.field("color"@) {
        Some(Tree::Table(entries)) => lemma_colors_of_are_plain(entries, entries.len()),
        _ => {},
    }
}

/// The states of every button that a document writes: where the document sets no filling,
/// text colour or shadow of the disabled state, the disabled state has no shadow and has the
/// filling and the text colour of the active state at half their opacity; and where it sets
/// no shadow of the hovered state, the hovered state has that of the active state one unit
/// further down. Here `v` is the table of any variant, read with the colours of the theme as
/// every variant is.
pub proof fn lemma_button_states_of_theme(t: Tree, v: Tree)
    requires
        theme_of(t) is Ok,
        button::style_patch_of(v, theme_of(t)->Ok_0.color) is Ok,
    ensures
        ({
            let patch = button::style_patch_of(v, theme_of(t)->Ok_0.color)->Ok_0;
            let style = button::resolved(patch);
            &&& patch.disabled.shadow_offset is None ==> style.disabled.shadow_offset
                == Vector::zero()
            &&& patch.disabled.background is None ==> match style.active.background {
                None => style.disabled.background is None,
                Some(active) => {
                    &&& style.disabled.background matches Some(disabled)
                    &&& disabled.color.opacity() == half(active.color.opacity())
                    &&& disabled.color.r == active.color.r
                    &&& disabled.color.g == active.color.g
                    &&& disabled.color.b == active.color.b
                },
            }
            &&& patch.disabled.text_color is None ==> {
                &&& style.disabled.text_color.opacity() == half(style.active.text_color.opacity())
                &&& style.disabled.text_color.r == style.active.text_color.r
                &&& style.disabled.text_color.g == style.active.text_color.g
                &&& style.disabled.text_color.b == style.active.text_color.b
            }
        }),
{
    lemma_theme_colors_are_plain(t);
    button::lemma_states_of_document(v, theme_of(t)->Ok_0.color);
}

/// Entries of the colour section that name no colours are at fault for what they hold.
pub proof fn lemma_colors_fault_is_of_document(entries: Seq<(Seq<char>, Tree)>, n: nat)
    ensures
        colors_of(entries, n) matches Err(e) ==> e.of_document(),
    decreases n,
{
    if n > 0 {
        lemma_colors_fault_is_of_document(entries, (n - 1) as nat);
        lemma_color_fault_is_of_document(entries[n - 1].1, Map::empty());
    }
}

/// A document that writes no theme is at fault for what it holds: the fault is a wrong shape,
/// a name of no colour or a malformed hexadecimal byte, and so of the kind of format or of
/// colour. A fault of reading or of watching never comes of a document.
pub proof fn lemma_theme_fault_is_of_document(t: Tree)
    ensures
        theme_of(t) matches Err(e) ==> {
            &&& e.of_document()
            &&& e.kind() == ErrorKind::Format || e.kind() == ErrorKind::Color
            &&& e.kind() != ErrorKind::Io
            &&& e.kind() != ErrorKind::Watch
        },
{
    match t.field("color"@) {
        Some(Tree::Table(entries)) => lemma_colors_fault_is_of_document(entries, entries.len()),
        _ => {},
    }
    if aliases_of(t.field("color"@)) is Ok {
        let local = aliases_of(t.field("color"@))->Ok_0;
        lemma_section_fault_is_of_document::<button::StyleSheet>(t.field("button"@), local);
        lemma_section_fault_is_of_document::<checkbox::StyleSheet>(t.field("checkbox"@), local);
        lemma_section_fault_is_of_document::<container::StyleSheet>(t.field("container"@), local);
        lemma_section_fault_is_of_document::<image::StyleSheet>(t.field("image"@), local);
        lemma_section_fault_is_of_document::<image_viewer::StyleSheet>(
            t.field("image_viewer"@),
            local,
        );
        lemma_section_fault_is_of_document::<pick_list::StyleSheet>(t.field("pick_list"@), local);
        lemma_section_fault_is_of_document::<progress_bar::StyleSheet>(
            t.field("progress_bar"@),
            local,
        );
        lemma_section_fault_is_of_document::<qr_code::StyleSheet>(t.field("qr_code"@), local);
        lemma_section_fault_is_of_document::<radio::StyleSheet>(t.field("radio"@), local);
        lemma_section_fault_is_of_document::<scrollable::StyleSheet>(t.field("scrollable"@), local);
        lemma_section_fault_is_of_document::<slider::StyleSheet>(t.field("slider"@), local);
        lemma_section_fault_is_of_document::<svg::StyleSheet>(t.field("svg"@), local);
        lemma_section_fault_is_of_document::<text::StyleSheet>(t.field("text"@), local);
        lemma_section_fault_is_of_document::<text_input::StyleSheet>(t.field("text_input"@), local);
    }
}

} // verus!
