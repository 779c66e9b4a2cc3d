//! Project templates and component-file parsing.
//!
//! A component file holds named sections (template, style, code, …) in one
//! of three formats: the legacy tag format, the modern section-tag format,
//! and the Markdown format with fenced code blocks. The parsers here turn a
//! file's text into its sections; each is specified by a fold over the
//! file's lines.

use vstd::prelude::*;
use vstd::string::*;
use crate::text;
use crate::text::{occurs_at, spec_split_lines, spec_trim_ch, spec_trim_ws, trim_left_ch};

verus! {

/// One file of a project template.
pub struct TemplateFile {
    /// Path of the file relative to the project root.
    pub path: String,
    /// The file's content.
    pub content: String,
}

/// A whole project template.
pub struct ProjectTemplate {
    /// The template's name.
    pub name: String,
    /// Human-readable description.
    pub description: String,
    /// The files the template writes.
    pub files: Vec<TemplateFile>,
    /// Dependencies of the generated project.
    pub dependencies: Vec<String>,
    /// Development dependencies of the generated project.
    pub dev_dependencies: Vec<String>,
    /// Component format of the template; legacy when absent.
    pub format: Option<ComponentFormat>,
}

/// The kind of project a template produces.
#[derive(Clone, Copy)]
pub enum TemplateType {
    /// A basic project.
    Basic,
    /// A component library.
    ComponentLibrary,
    /// An advanced application.
    Advanced,
}

impl TemplateType {
    /// The template's directory name.
    pub fn name(&self) -> (r: String)
        ensures
            *self is Basic ==> r@ == "basic"@,
            *self is Advanced ==> r@ == "advanced"@,
            *self is ComponentLibrary ==> r@ == "component-library"@,
    {
        match self {
            TemplateType::Basic => text::to_string("basic"),
            TemplateType::Advanced => text::to_string("advanced"),
            TemplateType::ComponentLibrary => text::to_string("component-library"),
        }
    }

    /// Parse a template name, accepting any ASCII letter case; an
    /// unrecognized name is rejected with a message naming it.
    pub fn from_str(s: &str) -> (r: Result<TemplateType, String>)
        ensures
            text::str_ci_eq(s@, "basic"@) ==> r == Result::<TemplateType, String>::Ok(
                TemplateType::Basic,
            ),
            text::str_ci_eq(s@, "advanced"@) ==> r == Result::<TemplateType, String>::Ok(
                TemplateType::Advanced,
            ),
            text::str_ci_eq(s@, "component-library"@) ==> r == Result::<TemplateType, String>::Ok(
                TemplateType::ComponentLibrary,
            ),
            !text::str_ci_eq(s@, "basic"@) && !text::str_ci_eq(s@, "advanced"@)
                && !text::str_ci_eq(s@, "component-library"@) ==> (r matches Err(m) && m@
                == "Invalid template type: "@ + s@),
    {
        proof {
            reveal_strlit("basic");
            reveal_strlit("advanced");
            reveal_strlit("component-library");
        }
        if text::str_eq_ci(s, "basic") {
            Ok(TemplateType::Basic)
        } else if text::str_eq_ci(s, "advanced") {
            Ok(TemplateType::Advanced)
        } else if text::str_eq_ci(s, "component-library") {
            Ok(TemplateType::ComponentLibrary)
        } else {
            let mut m = text::to_string("Invalid template type: ");
            m.append(s);
            Err(m)
        }
    }
}

/// The format a component file is written in.
#[derive(PartialEq, Eq, Structural)]
pub enum ComponentFormat {
    /// The old tag format with `<script>` sections.
    Legacy,
    /// The new format with one section tag per line.
    Modern,
    /// Markdown with fenced code blocks per section.
    Markdown,
}

impl Default for ComponentFormat {
    /// Files without a declared format count as legacy.
    fn default() -> (r: Self)
        ensures
            r is Legacy,
    {
        ComponentFormat::Legacy
    }
}

/// One named section of a component file.
pub struct ComponentSection {
    /// Section name, e.g. `template`, `style`, `code` or `markdown`.
    pub name: String,
    /// The section's language, e.g. `html`, `css` or `rust`.
    pub lang: String,
    /// The section's text.
    pub content: String,
}

/// Mathematical model of one section.
#[verifier::ext_equal]
pub ghost struct SectionModel {
    /// Section name.
    pub name: Seq<char>,
    /// Section language.
    pub lang: Seq<char>,
    /// Section text.
    pub content: Seq<char>,
}

impl View for ComponentSection {
    type V = SectionModel;

    open spec fn view(&self) -> SectionModel {
        SectionModel { name: self.name@, lang: self.lang@, content: self.content@ }
    }
}

/// The models of a sequence of sections.
pub open spec fn sec_views(v: Seq<ComponentSection>) -> Seq<SectionModel> {
    v.map_values(|s: ComponentSection| s@)
}

/// `p` occurs somewhere in `s`.
pub open spec fn contains_seq(s: Seq<char>, p: Seq<char>) -> bool {
    exists|i: int| occurs_at(s, p, i)
}

/// The section name that goes with a language tag.
pub open spec fn sec_name_of(lang: Seq<char>) -> Seq<char> {
    if lang == "html"@ || lang == "template"@ {
        "template"@
    } else if lang == "css"@ || lang == "style"@ {
        "style"@
    } else if lang == "rust"@ {
        "code"@
    } else if lang == "markdown"@ || lang == "md"@ {
        "markdown"@
    } else {
        lang
    }
}

/// State of the legacy and modern parsers: the open section, if any, and
/// the finished sections.
#[verifier::ext_equal]
pub ghost struct ParseState {
    /// The section currently being filled.
    pub cur: Option<SectionModel>,
    /// Finished sections, in order.
    pub out: Seq<SectionModel>,
}

/// The finished sections once the open section, if any, is closed.
pub open spec fn flushed(st: ParseState) -> Seq<SectionModel> {
    match st.cur {
        Some(c) => st.out.push(c),
        None => st.out,
    }
}

/// Close the open section and begin a new one.
pub open spec fn open_section(st: ParseState, name: Seq<char>, lang: Seq<char>) -> ParseState {
    ParseState {
        cur: Some(SectionModel { name, lang, content: Seq::empty() }),
        out: flushed(st),
    }
}

/// Close the open section.
pub open spec fn close_section(st: ParseState) -> ParseState {
    ParseState { cur: None, out: flushed(st) }
}

/// Append `line` and a newline to the open section; without one the line is
/// dropped.
pub open spec fn append_line(st: ParseState, line: Seq<char>) -> ParseState {
    match st.cur {
        Some(c) => ParseState {
            cur: Some(
                SectionModel {
                    name: c.name,
                    lang: c.lang,
                    content: c.content + line + seq!['\n'],
                },
            ),
            out: st.out,
        },
        None => st,
    }
}

/// One line of the legacy format: `<template>`, `<style>` and `<script>`
/// tags open sections, their closing tags close them, and any other line
/// belongs to the open section.
pub open spec fn legacy_step(st: ParseState, line: Seq<char>) -> ParseState {
    if contains_seq(line, "<template>"@) {
        open_section(st, "template"@, "html"@)
    } else if contains_seq(line, "</template>"@) {
        close_section(st)
    } else if contains_seq(line, "<style>"@) {
        open_section(st, "style"@, "css"@)
    } else if contains_seq(line, "</style>"@) {
        close_section(st)
    } else if contains_seq(line, "<script>"@) {
        open_section(st, "code"@, "rust"@)
    } else if contains_seq(line, "</script>"@) {
        close_section(st)
    } else {
        append_line(st, line)
    }
}

/// Fold of [`legacy_step`] over the lines.
pub open spec fn legacy_fold(lines: Seq<Seq<char>>, st: ParseState) -> ParseState
    decreases lines.len(),
{
    if lines.len() == 0 {
        st
    } else {
        legacy_fold(lines.skip(1), legacy_step(st, lines[0]))
    }
}

/// The sections of a legacy-format file: the fold over its lines, with the
/// open section closed at the end.
pub open spec fn spec_parse_legacy(content: Seq<char>) -> Seq<SectionModel> {
    flushed(
        legacy_fold(spec_split_lines(content), ParseState { cur: None, out: Seq::empty() }),
    )
}

/// One line of the modern format: a line of the shape `<lang>` begins a new
/// section for that language; any other line belongs to the open section.
pub open spec fn modern_step(st: ParseState, line: Seq<char>) -> ParseState {
    if line.len() >= 1 && line[0] == '<' && line.last() == '>' {
        let lang = spec_trim_ws(spec_trim_ch(spec_trim_ch(line, '<'), '>'));
        ParseState {
            cur: Some(SectionModel { name: sec_name_of(lang), lang, content: Seq::empty() }),
            out: flushed(st),
        }
    } else {
        append_line(st, line)
    }
}

/// Fold of [`modern_step`] over the lines.
pub open spec fn modern_fold(lines: Seq<Seq<char>>, st: ParseState) -> ParseState
    decreases lines.len(),
{
    if lines.len() == 0 {
        st
    } else {
        modern_fold(lines.skip(1), modern_step(st, lines[0]))
    }
}

/// The sections of a modern-format file.
pub open spec fn spec_parse_modern(content: Seq<char>) -> Seq<SectionModel> {
    flushed(
        modern_fold(spec_split_lines(content), ParseState { cur: None, out: Seq::empty() }),
    )
}

/// State of the Markdown parser.
#[verifier::ext_equal]
pub ghost struct MdState {
    /// The section currently being filled.
    pub cur: Option<SectionModel>,
    /// Finished sections, in order.
    pub out: Seq<SectionModel>,
    /// True while inside a fenced code block.
    pub in_code: bool,
    /// Markdown text gathered outside code blocks.
    pub md: Seq<char>,
}

/// One line of the Markdown format. A fence with a language begins a code
/// section, first saving any gathered Markdown text as a section of its
/// own; a fence without a language only toggles into code; a closing fence
/// finishes the section. Inside a fence, lines belong to the open section;
/// outside, they gather as Markdown text.
pub open spec fn md_step(st: MdState, line: Seq<char>) -> MdState {
    if "```"@.is_prefix_of(line) {
        if !st.in_code {
            let lang = spec_trim_ws(trim_left_ch(line, '`'));
            if lang.len() > 0 {
                let md_kept = spec_trim_ws(st.md).len() > 0;
                let out1 = if md_kept {
                    st.out.push(
                        SectionModel {
                            name: "markdown"@,
                            lang: "markdown"@,
                            content: spec_trim_ws(st.md),
                        },
                    )
                } else {
                    st.out
                };
                let md1 = if md_kept {
                    Seq::<char>::empty()
                } else {
                    st.md
                };
                let out2 = match st.cur {
                    Some(c) => out1.push(c),
                    None => out1,
                };
                MdState {
                    cur: Some(
                        SectionModel { name: sec_name_of(lang), lang, content: Seq::empty() },
                    ),
                    out: out2,
                    in_code: true,
                    md: md1,
                }
            } else {
                MdState { cur: st.cur, out: st.out, in_code: true, md: st.md }
            }
        } else {
            MdState {
                cur: None,
                out: match st.cur {
                    Some(c) => st.out.push(c),
                    None => st.out,
                },
                in_code: false,
                md: st.md,
            }
        }
    } else if st.in_code {
        match st.cur {
            Some(c) => MdState {
                cur: Some(
                    SectionModel {
                        name: c.name,
                        lang: c.lang,
                        content: c.content + line + seq!['\n'],
                    },
                ),
                out: st.out,
                in_code: st.in_code,
                md: st.md,
            },
            None => st,
        }
    } else {
        MdState { cur: st.cur, out: st.out, in_code: st.in_code, md: st.md + line + seq!['\n'] }
    }
}

/// Fold of [`md_step`] over the lines.
pub open spec fn md_fold(lines: Seq<Seq<char>>, st: MdState) -> MdState
    decreases lines.len(),
{
    if lines.len() == 0 {
        st
    } else {
        md_fold(lines.skip(1), md_step(st, lines[0]))
    }
}

/// The sections of a Markdown-format file. A section or Markdown text still
/// open at the end of the file is not emitted.
pub open spec fn spec_parse_markdown(content: Seq<char>) -> Seq<SectionModel> {
    md_fold(
        spec_split_lines(content),
        MdState { cur: None, out: Seq::empty(), in_code: false, md: Seq::empty() },
    ).out
}

/// Manages project templates below a templates directory.
pub struct TemplateManager {
    /// Directory the template definitions live in.
    pub templates_dir: String,
}

impl TemplateManager {
    /// Manager over the given templates directory. Locating the directory
    /// on disk is the caller's business.
    pub fn new(templates_dir: String) -> (r: Self)
        ensures
            r.templates_dir == templates_dir,
    {
        TemplateManager { templates_dir }
    }

    /// The available template types, in presentation order.
    pub fn list_templates(&self) -> (r: Vec<TemplateType>)
        ensures
            r@.len() == 3,
            r@[0] is Basic,
            r@[1] is ComponentLibrary,
            r@[2] is Advanced,
    {
        let mut v: Vec<TemplateType> = Vec::new();
        v.push(TemplateType::Basic);
        v.push(TemplateType::ComponentLibrary);
        v.push(TemplateType::Advanced);
        v
    }

    /// The section name that goes with a language tag.
    pub fn determine_section_name(lang: &str) -> (r: String)
        ensures
            r@ == sec_name_of(lang@),
    {
        proof {
            reveal_strlit("html");
            reveal_strlit("template");
            reveal_strlit("css");
            reveal_strlit("style");
            reveal_strlit("rust");
            reveal_strlit("markdown");
            reveal_strlit("md");
        }
        if text::str_eq(lang, "html") || text::str_eq(lang, "template") {
            text::to_string("template")
        } else if text::str_eq(lang, "css") || text::str_eq(lang, "style") {
            text::to_string("style")
        } else if text::str_eq(lang, "rust") {
            text::to_string("code")
        } else if text::str_eq(lang, "markdown") || text::str_eq(lang, "md") {
            text::to_string("markdown")
        } else {
            text::to_string(lang)
        }
    }

    /// The sections of `content` read in the given format.
    pub fn parse_component_sections(content: &str, format: ComponentFormat) -> (r: Vec<
        ComponentSection,
    >)
        ensures
            format is Legacy ==> sec_views(r@) == spec_parse_legacy(content@),
            format is Modern ==> sec_views(r@) == spec_parse_modern(content@),
            format is Markdown ==> sec_views(r@) == spec_parse_markdown(content@),
    {
        match format {
            ComponentFormat::Legacy => Self::parse_legacy_format(content),
            ComponentFormat::Modern => Self::parse_modern_format(content),
            ComponentFormat::Markdown => Self::parse_markdown_format(content),
        }
    }

    /// The sections of a legacy-format component file.
    pub fn parse_legacy_format(content: &str) -> (r: Vec<ComponentSection>)
        ensures
            sec_views(r@) == spec_parse_legacy(content@),
    {
        let lines = text::split_lines(content);
        let ghost lv = lines@.map_values(|l: String| l@);
        let ghost init = ParseState { cur: None, out: Seq::<SectionModel>::empty() };
        let mut out: Vec<ComponentSection> = Vec::new();
        let mut cur: Option<ComponentSection> = None;
        let n = lines.len();
        let mut i: usize = 0;
        proof {
            assert(lv.skip(0) =~= lv);
            assert(st_of(cur, out@) =~~= init);
        }
        while i < n
            invariant
                n == lines@.len(),
                lv == lines@.map_values(|l: String| l@),
                i <= n,
                legacy_fold(lv, init) == legacy_fold(lv.skip(i as int), st_of(cur, out@)),
            decreases n - i,
        {
            proof {
                assert(lv.skip(i as int).len() > 0);
                assert(lv.skip(i as int)[0] == lv[i as int]);
                assert(lv.skip(i as int).skip(1) =~= lv.skip(i + 1));
                assert(lv[i as int] == lines@[i as int]@);
            }
            let ghost st0 = st_of(cur, out@);
            let line = &lines[i];
            if text::contains_sub(line.as_str(), "<template>") {
                if let Some(c) = cur {
                    out.push(c);
                }
                cur = Some(
                    ComponentSection {
                        name: text::to_string("template"),
                        lang: text::to_string("html"),
                        content: String::new(),
                    },
                );
            } else if text::contains_sub(line.as_str(), "</template>") {
                if let Some(c) = cur {
                    out.push(c);
                }
                cur = None;
            } else if text::contains_sub(line.as_str(), "<style>") {
                if let Some(c) = cur {
                    out.push(c);
                }
                cur = Some(
                    ComponentSection {
                        name: text::to_string("style"),
                        lang: text::to_string("css"),
                        content: String::new(),
                    },
                );
            } else if text::contains_sub(line.as_str(), "</style>") {
                if let Some(c) = cur {
                    out.push(c);
                }
                cur = None;
            } else if text::contains_sub(line.as_str(), "<script>") {
                if let Some(c) = cur {
                    out.push(c);
                }
                cur = Some(
                    ComponentSection {
                        name: text::to_string("code"),
                        lang: text::to_string("rust"),
                        content: String::new(),
                    },
                );
            } else if text::contains_sub(line.as_str(), "</script>") {
                if let Some(c) = cur {
                    out.push(c);
                }
                cur = None;
            } else {
                cur = match cur {
                    Some(mut c) => {
                        c.content.append(line.as_str());
                        text::push_char(&mut c.content, '\n');
                        Some(c)
                    },
                    None => None,
                };
            }
            proof {
                assert(st_of(cur, out@) =~~= legacy_step(st0, lv[i as int]));
            }
            i += 1;
        }
        proof {
            assert(lv.skip(n as int) =~= Seq::<Seq<char>>::empty());
        }
        if let Some(c) = cur {
            out.push(c);
        }
        proof {
            assert(sec_views(out@) =~= spec_parse_legacy(content@));
        }
        out
    }

    /// The sections of a modern-format component file.
    pub fn parse_modern_format(content: &str) -> (r: Vec<ComponentSection>)
        ensures
            sec_views(r@) == spec_parse_modern(content@),
    {
        let lines = text::split_lines(content);
        let ghost lv = lines@.map_values(|l: String| l@);
        let ghost init = ParseState { cur: None, out: Seq::<SectionModel>::empty() };
        let mut out: Vec<ComponentSection> = Vec::new();
        let mut cur: Option<ComponentSection> = None;
        let n = lines.len();
        let mut i: usize = 0;
        proof {
            assert(lv.skip(0) =~= lv);
            assert(st_of(cur, out@) =~~= init);
        }
        while i < n
            invariant
                n == lines@.len(),
                lv == lines@.map_values(|l: String| l@),
                i <= n,
                modern_fold(lv, init) == modern_fold(lv.skip(i as int), st_of(cur, out@)),
            decreases n - i,
        {
            proof {
                assert(lv.skip(i as int).len() > 0);
                assert(lv.skip(i as int)[0] == lv[i as int]);
                assert(lv.skip(i as int).skip(1) =~= lv.skip(i + 1));
                assert(lv[i as int] == lines@[i as int]@);
            }
            let ghost st0 = st_of(cur, out@);
            let line = &lines[i];
            let len = line.as_str().unicode_len();
            if len >= 1 && line.as_str().get_char(0) == '<' && line.as_str().get_char(len - 1)
                == '>' {
                let lang = text::trim_ws(
                    text::trim_char_ends(
                        text::trim_char_ends(line.as_str(), '<').as_str(),
                        '>',
                    ).as_str(),
                );
                if let Some(c) = cur {
                    out.push(c);
                }
                let name = Self::determine_section_name(lang.as_str());
                cur = Some(ComponentSection { name, lang, content: String::new() });
            } else {
                cur = match cur {
                    Some(mut c) => {
                        c.content.append(line.as_str());
                        text::push_char(&mut c.content, '\n');
                        Some(c)
                    },
                    None => None,
                };
            }
            proof {
                assert(st_of(cur, out@) =~~= modern_step(st0, lv[i as int]));
            }
            i += 1;
        }
        proof {
            assert(lv.skip(n as int) =~= Seq::<Seq<char>>::empty());
        }
        if let Some(c) = cur {
            out.push(c);
        }
        proof {
            assert(sec_views(out@) =~= spec_parse_modern(content@));
        }
        out
    }

    /// The sections of a Markdown-format component file.
    pub fn parse_markdown_format(content: &str) -> (r: Vec<ComponentSection>)
        ensures
            sec_views(r@) == spec_parse_markdown(content@),
    {
        let lines = text::split_lines(content);
        let ghost lv = lines@.map_values(|l: String| l@);
        let ghost init = MdState {
            cur: None,
            out: Seq::<SectionModel>::empty(),
            in_code: false,
            md: Seq::<char>::empty(),
        };
        let mut out: Vec<ComponentSection> = Vec::new();
        let mut cur: Option<ComponentSection> = None;
        let mut in_code = false;
        let mut md = String::new();
        let n = lines.len();
        let mut i: usize = 0;
        proof {
            assert(lv.skip(0) =~= lv);
            assert(md_st_of(cur, out@, in_code, md@) =~~= init);
        }
        while i < n
            invariant
                n == lines@.len(),
                lv == lines@.map_values(|l: String| l@),
                i <= n,
                md_fold(lv, init) == md_fold(
                    lv.skip(i as int),
                    md_st_of(cur, out@, in_code, md@),
                ),
            decreases n - i,
        {
            proof {
                assert(lv.skip(i as int).len() > 0);
                assert(lv.skip(i as int)[0] == lv[i as int]);
                assert(lv.skip(i as int).skip(1) =~= lv.skip(i + 1));
                assert(lv[i as int] == lines@[i as int]@);
            }
            let ghost st0 = md_st_of(cur, out@, in_code, md@);
            let line = &lines[i];
            if text::starts_with(line.as_str(), "```") {
                if !in_code {
                    in_code = true;
                    let lang = text::trim_ws(
                        text::trim_char_start(line.as_str(), '`').as_str(),
                    );
                    if lang.as_str().unicode_len() > 0 {
                        let trimmed_md = text::trim_ws(md.as_str());
                        if trimmed_md.as_str().unicode_len() > 0 {
                            out.push(
                                ComponentSection {
                                    name: text::to_string("markdown"),
                                    lang: text::to_string("markdown"),
                                    content: trimmed_md,
                                },
                            );
                            md = String::new();
                        }
                        if let Some(c) = cur {
                            out.push(c);
                        }
                        let name = Self::determine_section_name(lang.as_str());
                        cur = Some(ComponentSection { name, lang, content: String::new() });
                    }
                } else {
                    in_code = false;
                    if let Some(c) = cur {
                        out.push(c);
                    }
                    cur = None;
                }
            } else if in_code {
                cur = match cur {
                    Some(mut c) => {
                        c.content.append(line.as_str());
                        text::push_char(&mut c.content, '\n');
                        Some(c)
                    },
                    None => None,
                };
            } else {
                md.append(line.as_str());
                text::push_char(&mut md, '\n');
            }
            proof {
                assert(md_st_of(cur, out@, in_code, md@) =~~= md_step(st0, lv[i as int]));
            }
            i += 1;
        }
        proof {
            assert(lv.skip(n as int) =~= Seq::<Seq<char>>::empty());
        }
        proof {
            assert(sec_views(out@) =~= spec_parse_markdown(content@));
        }
        out
    }
}

/// The model of the legacy/modern parser's running state.
pub open spec fn st_of(cur: Option<ComponentSection>, out: Seq<ComponentSection>) -> ParseState {
    ParseState {
        cur: match cur {
            Some(c) => Some(c@),
            None => None,
        },
        out: sec_views(out),
    }
}

/// The model of the Markdown parser's running state.
pub open spec fn md_st_of(
    cur: Option<ComponentSection>,
    out: Seq<ComponentSection>,
    in_code: bool,
    md: Seq<char>,
) -> MdState {
    MdState {
        cur: match cur {
            Some(c) => Some(c@),
            None => None,
        },
        out: sec_views(out),
        in_code,
        md,
    }
}

} // verus!
