use vstd::prelude::*;
use vstd::string::StringExecFns;

use crate::config::template::{
    add_template, new_registry, registered_templates, render_template, rendered_template,
    template_compiles, template_is_safe, template_safe,
};
use crate::d2::draw::{Alignment, TextColor};
use tinytemplate::TinyTemplate;

verus! {

/// One line of the overlay: where and how to draw it, and the template its
/// text is rendered from.
#[derive(Debug)]
pub struct UiInfoConfig {
    pub x: i32,
    pub y: i32,
    pub color: TextColor,
    pub alignment: Alignment,
    pub font: u8,
    pub message: String,
    pub tt: String,
}

/// The text of a line whose template is `message`, rendered with the
/// name/value pairs `variables`; nothing when the template is one that the
/// template compiler panics on (see `template_safe`), does not
/// compile, or does not render.
pub open spec fn rendered_message(message: Seq<char>, variables: Seq<(Seq<char>, Seq<char>)>) -> Option<Seq<char>> {
    if template_safe(message) && template_compiles(message) {
        rendered_template(map!["message"@ => message], "message"@, variables)
    } else {
        None
    }
}

/// The lines of an overlay that get drawn, in order, with their rendered
/// text: those whose text is not empty. Every line must render.
pub open spec fn drawn_lines(lines: Seq<UiInfoConfig>, variables: Seq<(Seq<char>, Seq<char>)>) -> Seq<(usize, Seq<char>)>
    decreases lines.len(),
{
    if lines.len() == 0 {
        Seq::empty()
    } else {
        let rest = drawn_lines(lines.drop_last(), variables);
        let text = rendered_message(lines.last().message@, variables).unwrap();
        if text.len() > 0 {
            rest.push(((lines.len() - 1) as usize, text))
        } else {
            rest
        }
    }
}

/// A line's text depends on its template and the variables alone: two
/// lines with the same template, wherever and however they are drawn,
/// render to the same text, or both fail to render.
pub proof fn lemma_render_depends_on_template_only(
    a: UiInfoConfig,
    b: UiInfoConfig,
    variables: Seq<(Seq<char>, Seq<char>)>,
)
    requires
        a.message@ == b.message@,
    ensures
        rendered_message(a.message@, variables) == rendered_message(b.message@, variables),
{
}

impl UiInfoConfig {
    /// A registry holding the line's template under the name `message`, or
    /// nothing when the template does not compile.
    fn create_tiny_template(&self) -> (res: Option<TinyTemplate<'_>>)
        requires
            template_safe(self.message@),
        ensures
            match res {
                Some(t) => template_compiles(self.message@) && registered_templates(t) == map!["message"@ => self.message@],
                None => !template_compiles(self.message@),
            },
    {
        let mut template = new_registry();
        match add_template(&mut template, "message", self.message.as_str()) {
            Ok(()) => {
                assert(registered_templates(template) =~= map!["message"@ => self.message@]);
                Some(template)
            },
            Err(_) => None,
        }
    }

    /// The line's text: its template rendered with `variables`. The template
    /// must render; a caller that cannot show this beforehand calls
    /// `try_render`, which makes the same checks and renders in one pass and
    /// on which this function is built.
    pub fn render(&self, variables: &Vec<(String, String)>) -> (res: String)
        requires
            rendered_message(self.message@, variables.deep_view()) is Some,
        ensures
            res@ == rendered_message(self.message@, variables.deep_view()).unwrap(),
    {
        match self.try_render(variables) {
            Some(text) => text,
            None => {
                assert(false);
                String::new()
            },
        }
    }

    /// The line's text, or nothing when its template is one the template
    /// compiler panics on, does not compile, or does not render with
    /// `variables`.
    pub fn try_render(&self, variables: &Vec<(String, String)>) -> (res: Option<String>)
        ensures
            match rendered_message(self.message@, variables.deep_view()) {
                Some(out) => res matches Some(s) && s@ == out,
                None => res is None,
            },
    {
        if !template_is_safe(self.message.as_str()) {
            return None;
        }
        let tt = match self.create_tiny_template() {
            Some(tt) => tt,
            None => {
                return None;
            },
        };
        match render_template(&tt, "message", variables) {
            Ok(text) => Some(text),
            Err(_) => None,
        }
    }
}

/// The lines of `lines` to draw, in order, as (index, rendered text) for
/// each line whose text is not empty; nothing when some line does not
/// render.
pub fn lines_to_draw(lines: &Vec<UiInfoConfig>, variables: &Vec<(String, String)>) -> (res: Option<Vec<(usize, String)>>)
    ensures
        res is Some <==> forall|i: int| 0 <= i < lines@.len() ==> (#[trigger] rendered_message(lines@[i].message@, variables.deep_view())) is Some,
        res matches Some(v) ==> v.deep_view() == drawn_lines(lines@, variables.deep_view()),
{
    let ghost vars = variables.deep_view();
    let mut res: Vec<(usize, String)> = Vec::new();
    let mut i: usize = 0;
    while i < lines.len()
        invariant
            i <= lines@.len(),
            vars == variables.deep_view(),
            forall|j: int| 0 <= j < i ==> (#[trigger] rendered_message(lines@[j].message@, vars)) is Some,
            res.deep_view() == drawn_lines(lines@.take(i as int), vars),
        decreases lines@.len() - i,
    {
        let line = &lines[i];
        match line.try_render(variables) {
            None => {
                return None;
            },
            Some(text) => {
                let ghost before = res.deep_view();
                assert(lines@.take(i + 1).drop_last() =~= lines@.take(i as int));
                assert(lines@.take(i + 1).last() == lines@[i as int]);
                let ghost t = text@;
                if !text.as_str().is_empty() {
                    res.push((i, text));
                    assert(res.deep_view() =~= before.push((i, t)));
                }
            },
        }
        i = i + 1;
    }
    assert(lines@.take(i as int) =~= lines@);
    Some(res)
}

/// The overlay layout, read from a JSON file whose path the record keeps:
/// the lines drawn on the automap and those drawn on the game screen.
#[derive(Debug)]
pub struct UiConfig {
    pub automap: Vec<UiInfoConfig>,
    pub screen: Vec<UiInfoConfig>,
    pub file_name: String,
}

impl UiConfig {
    /// A layout bound to `file_name`, with no lines yet.
    pub fn new(file_name: &str) -> (res: UiConfig)
        ensures
            res.file_name@ == file_name@,
            res.automap@.len() == 0,
            res.screen@.len() == 0,
    {
        UiConfig { file_name: String::from_str(file_name), automap: Vec::new(), screen: Vec::new() }
    }
}

} // verus!
