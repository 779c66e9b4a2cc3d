//! Built-in project templates: the files a new project starts from, keyed
//! by template name. Writing the files to disk is the caller's business.

use vstd::prelude::*;
use vstd::string::*;
use crate::project_templates::TemplateFile;
use crate::text;

verus! {

/// The paths of a template's files, in order.
pub open spec fn file_paths(v: Seq<TemplateFile>) -> Seq<Seq<char>> {
    v.map_values(|f: TemplateFile| f.path@)
}

/// Index of the file at `p`, searching from position `i` on.
pub open spec fn find_file(s: Seq<TemplateFile>, p: Seq<char>, i: int) -> Option<int>
    decreases s.len() - i,
{
    if i < 0 || i >= s.len() {
        None
    } else if s[i].path@ == p {
        Some(i)
    } else {
        find_file(s, p, i + 1)
    }
}

fn set_file(files: &mut Vec<TemplateFile>, path: &str, content: &str)
    ensures
        match find_file(old(files)@, path@, 0) {
            Some(i) => final(files)@.len() == old(files)@.len() && file_paths(final(files)@)
                == file_paths(old(files)@) && final(files)@[i].content@ == content@ && (forall|
                j: int,
            |
                0 <= j < old(files)@.len() && j != i ==> final(files)@[j] == old(files)@[j]),
            None => final(files)@.len() == old(files)@.len() + 1 && final(files)@.last().path@
                == path@ && final(files)@.last().content@ == content@ && (forall|j: int|
                0 <= j < old(files)@.len() ==> final(files)@[j] == old(files)@[j]),
        },
{
    let ghost s0 = files@;
    let ghost pv = path@;
    let n = files.len();
    let mut i: usize = 0;
    while i < n
        invariant
            n == files@.len(),
            files@ == s0,
            s0 == old(files)@,
            pv == path@,
            i <= n,
            find_file(s0, pv, 0) == find_file(s0, pv, i as int),
        decreases n - i,
    {
        if text::str_eq(files[i].path.as_str(), path) {
            proof {
                assert(s0[i as int].path@ == pv);
                assert(find_file(s0, pv, 0) == Some(i as int));
            }
            let _ = files.remove(i);
            files.insert(
                i,
                TemplateFile { path: text::to_string(path), content: text::to_string(content) },
            );
            proof {
                assert(file_paths(files@) =~= file_paths(s0));
            }
            return ;
        }
        assert(s0[i as int].path@ != pv);
        i += 1;
    }
    assert(find_file(s0, pv, 0) is None);
    files.push(TemplateFile { path: text::to_string(path), content: text::to_string(content) });
}


fn push_file(files: &mut Vec<TemplateFile>, path: &str, content: &str)
    ensures
        final(files)@.len() == old(files)@.len() + 1,
        final(files)@.last().path@ == path@,
        final(files)@.last().content@ == content@,
        forall|j: int| 0 <= j < old(files)@.len() ==> final(files)@[j] == old(files)@[j],
{
    files.push(TemplateFile { path: text::to_string(path), content: text::to_string(content) });
}

/// When position `k` holds path `p` and no earlier position does, the
/// search finds `k`.
proof fn lemma_find_file_at(s: Seq<TemplateFile>, p: Seq<char>, k: int)
    requires
        0 <= k < s.len(),
        s[k].path@ == p,
        forall|j: int| 0 <= j < k ==> s[j].path@ != p,
    ensures
        find_file(s, p, 0) == Some(k),
{
    lemma_find_file_at_from(s, p, k, 0);
}

proof fn lemma_find_file_at_from(s: Seq<TemplateFile>, p: Seq<char>, k: int, i: int)
    requires
        0 <= i <= k < s.len(),
        s[k].path@ == p,
        forall|j: int| i <= j < k ==> s[j].path@ != p,
    ensures
        find_file(s, p, i) == Some(k),
    decreases k - i,
{
    if i < k {
        lemma_find_file_at_from(s, p, k, i + 1);
    }
}

/// When no position holds path `p`, the search finds nothing.
proof fn lemma_find_file_absent(s: Seq<TemplateFile>, p: Seq<char>)
    requires
        forall|j: int| 0 <= j < s.len() ==> s[j].path@ != p,
    ensures
        find_file(s, p, 0) is None,
{
    lemma_find_file_absent_from(s, p, 0);
}

proof fn lemma_find_file_absent_from(s: Seq<TemplateFile>, p: Seq<char>, i: int)
    requires
        0 <= i,
        forall|j: int| i <= j < s.len() ==> s[j].path@ != p,
    ensures
        find_file(s, p, i) is None,
    decreases s.len() - i,
{
    if i < s.len() {
        lemma_find_file_absent_from(s, p, i + 1);
    }
}

/// The file paths of the basic template, in order.
pub open spec fn basic_paths() -> Seq<Seq<char>> {
    seq![
        "Cargo.toml"@,
        "src/lib.rs"@,
        "src/main.rs"@,
        "src/components/mod.rs"@,
        "src/components/counter.orbitrs"@,
        "README.md"@,
        "orbit.config.json"@,
    ]
}

/// The files of a basic project.
pub fn basic_template() -> (r: Vec<TemplateFile>)
    ensures
        file_paths(r@) == basic_paths(),
{
    let mut files: Vec<TemplateFile> = Vec::new();
    push_file(
        &mut files,
        "Cargo.toml",
        "[package]\nname = \"{{ project.project_name }}\"\nversion = \"0.1.0\"\nedition = \"2021\"\nauthors = [\"Your Name <your.email@example.com>\"]\n\n[dependencies]\norbit = \"{{ project.orbit_version }}\"\n\n[build-dependencies]\norbiton = \"{{ project.orbiton_version }}\"\n",
    );
    push_file(
        &mut files,
        "src/lib.rs",
        "// Main library for {{ project.project_name }}\n\npub mod components;\n\n/// Initialize the application\npub fn init() -> Result<(), orbitrs::Error> {\n    orbitrs::init()?;\n    Ok(())\n}\n",
    );
    push_file(
        &mut files,
        "src/main.rs",
        "// Entry point for {{ project.project_name }}\n\nfn main() -> Result<(), Box<dyn std::error::Error>> {\n    {{ project.project_name }}::init()?;\n    Ok(())\n}\n",
    );
    push_file(
        &mut files,
        "src/components/mod.rs",
        "// Components for {{ project.project_name }}\n\npub mod counter;\n",
    );
    push_file(
        &mut files,
        "src/components/counter.orbitrs",
        "<template>\n  <div class=\"counter\">\n    <h2>{{ count }}</h2>\n    <button @click=\"increment\">Increment</button>\n    <button @click=\"decrement\">Decrement</button>\n  </div>\n</template>\n\n<style>\n.counter {\n  margin: 2rem;\n  text-align: center;\n}\n</style>\n\n<script>\nuse orbitrs::prelude::*;\n\n#[derive(Default)]\npub struct Counter {\n    count: i32,\n}\n\nimpl Component for Counter {\n    type Props = ();\n\n    fn new(_props: Self::Props) -> Self {\n        Self::default()\n    }\n\n    fn render(&self) -> String {\n        \"Counter component\".to_string()\n    }\n}\n\nimpl Counter {\n    pub fn increment(&mut self) {\n        self.count += 1;\n    }\n\n    pub fn decrement(&mut self) {\n        self.count -= 1;\n    }\n}\n</script>\n",
    );
    push_file(
        &mut files,
        "README.md",
        "# {{ project.project_name }}\n\nThis is an Orbit UI project.\n\n## Development\n\norbiton dev\n\n## Building\n\norbiton build\n",
    );
    push_file(
        &mut files,
        "orbit.config.json",
        "{\n  \"renderer\": \"auto\",\n  \"target\": \"web\"\n}\n",
    );
    proof {
        assert(file_paths(files@) =~= basic_paths());
    }
    files
}

/// The files of a component library: the basic project with a library
/// manifest, an extended components module and a button component.
pub fn component_library_template() -> (r: Vec<TemplateFile>)
    ensures
        file_paths(r@) == basic_paths().push("src/components/button.orbitrs"@),
{
    let mut files = basic_template();
    proof {
        reveal_strlit("Cargo.toml");
        reveal_strlit("src/lib.rs");
        reveal_strlit("src/main.rs");
        reveal_strlit("src/components/mod.rs");
        reveal_strlit("src/components/counter.orbitrs");
        reveal_strlit("README.md");
        reveal_strlit("orbit.config.json");
        reveal_strlit("src/components/button.orbitrs");
        assert(file_paths(files@).len() == 7);
        assert(files@.len() == 7);
        assert(file_paths(files@)[0] == "Cargo.toml"@);
        assert(files@[0].path@ == file_paths(files@)[0]);
        lemma_find_file_at(files@, "Cargo.toml"@, 0);
    }
    set_file(
        &mut files,
        "Cargo.toml",
        "[package]\nname = \"{{ project.project_name }}\"\nversion = \"0.1.0\"\nedition = \"2021\"\nauthors = [\"Your Name <your.email@example.com>\"]\ndescription = \"A component library for Orbit UI framework\"\nlicense = \"MIT OR Apache-2.0\"\n\n[dependencies]\norbit = \"{{ project.orbit_version }}\"\n\n[build-dependencies]\norbiton = \"{{ project.orbiton_version }}\"\n\n[lib]\nname = \"{{ project.project_name }}\"\npath = \"src/lib.rs\"\n",
    );
    proof {
        reveal_strlit("Cargo.toml");
        reveal_strlit("src/lib.rs");
        reveal_strlit("src/main.rs");
        reveal_strlit("src/components/mod.rs");
        reveal_strlit("src/components/counter.orbitrs");
        reveal_strlit("README.md");
        reveal_strlit("orbit.config.json");
        assert(file_paths(files@) =~= basic_paths());
        assert(files@.len() == 7);
        assert forall|j: int| 0 <= j < files@.len() implies files@[j].path@ == basic_paths()[j] by {
            assert(files@[j].path@ == file_paths(files@)[j]);
        }
        assert(basic_paths()[0] != "src/components/mod.rs"@) by {
            assert("Cargo.toml"@.len() == 10);
            assert("src/components/mod.rs"@.len() == 21);
        }
        assert(basic_paths()[1] != "src/components/mod.rs"@) by {
            assert("src/lib.rs"@.len() == 10);
        }
        assert(basic_paths()[2] != "src/components/mod.rs"@) by {
            assert("src/main.rs"@.len() == 11);
        }
        lemma_find_file_at(files@, "src/components/mod.rs"@, 3);
    }
    set_file(
        &mut files,
        "src/components/mod.rs",
        "// Components for {{ project.project_name }}\n\npub mod button;\npub mod card;\npub mod counter;\npub mod input;\n",
    );
    proof {
        reveal_strlit("Cargo.toml");
        reveal_strlit("src/lib.rs");
        reveal_strlit("src/main.rs");
        reveal_strlit("src/components/mod.rs");
        reveal_strlit("src/components/counter.orbitrs");
        reveal_strlit("README.md");
        reveal_strlit("orbit.config.json");
        reveal_strlit("src/components/button.orbitrs");
        assert(file_paths(files@) =~= basic_paths());
        assert(files@.len() == 7);
        assert forall|j: int| 0 <= j < files@.len() implies files@[j].path@
            != "src/components/button.orbitrs"@ by {
            assert(files@[j].path@ == file_paths(files@)[j]);
            assert(file_paths(files@)[j] == basic_paths()[j]);
        }
        lemma_find_file_absent(files@, "src/components/button.orbitrs"@);
    }
    set_file(
        &mut files,
        "src/components/button.orbitrs",
        "<template>\n  <button\n    class=\"orbit-button {{ variant }}\"\n    :disabled=\"disabled\"\n    @click=\"onClick\">\n    <slot></slot>\n  </button>\n</template>\n\n<style>\n.orbit-button {\n  padding: 0.5rem 1rem;\n  cursor: pointer;\n}\n</style>\n\n<script>\nuse orbitrs::prelude::*;\n\n#[derive(Default)]\npub struct Button {\n    variant: String,\n    disabled: bool,\n}\n\nimpl Component for Button {\n    type Props = ();\n\n    fn new(_props: Self::Props) -> Self {\n        Self::default()\n    }\n\n    fn render(&self) -> String {\n        \"Button component\".to_string()\n    }\n}\n</script>\n",
    );
    proof {
        assert(file_paths(files@) =~= basic_paths().push("src/components/button.orbitrs"@));
    }
    files
}

/// The files of a full application: the basic project with a windowed entry
/// point and an application shell component.
pub fn full_app_template() -> (r: Vec<TemplateFile>)
    ensures
        file_paths(r@) == basic_paths().push("src/components/app.orbitrs"@),
{
    let mut files = basic_template();
    proof {
        reveal_strlit("Cargo.toml");
        reveal_strlit("src/lib.rs");
        reveal_strlit("src/main.rs");
        reveal_strlit("src/components/mod.rs");
        reveal_strlit("src/components/counter.orbitrs");
        reveal_strlit("README.md");
        reveal_strlit("orbit.config.json");
        reveal_strlit("src/components/app.orbitrs");
        assert(file_paths(files@).len() == 7);
        assert(files@.len() == 7);
        assert forall|j: int| 0 <= j < files@.len() implies files@[j].path@ == basic_paths()[j] by {
            assert(files@[j].path@ == file_paths(files@)[j]);
        }
        assert(basic_paths()[0] != "src/main.rs"@) by {
            assert("Cargo.toml"@.len() == 10);
            assert("src/main.rs"@.len() == 11);
            assert("Cargo.toml"@[0] == 'C');
        }
        assert(basic_paths()[1] != "src/main.rs"@) by {
            assert("src/lib.rs"@.len() == 10);
        }
        lemma_find_file_at(files@, "src/main.rs"@, 2);
    }
    set_file(
        &mut files,
        "src/main.rs",
        "// Entry point for {{ project.project_name }}\n\nuse orbitrs::platform::{self, PlatformType};\n\nfn main() -> Result<(), Box<dyn std::error::Error>> {\n    {{ project.project_name }}::init()?;\n    let mut platform = platform::create_adapter(PlatformType::Auto)?;\n    platform.init()?;\n    let window = platform.create_window(\"{{ project.project_name }}\", 800, 600)?;\n    let app = {{ project.project_name }}::components::app::App::new(());\n    platform.set_window_content(window, &app)?;\n    platform.run()?;\n    Ok(())\n}\n",
    );
    proof {
        reveal_strlit("Cargo.toml");
        reveal_strlit("src/lib.rs");
        reveal_strlit("src/main.rs");
        reveal_strlit("src/components/mod.rs");
        reveal_strlit("src/components/counter.orbitrs");
        reveal_strlit("README.md");
        reveal_strlit("orbit.config.json");
        reveal_strlit("src/components/app.orbitrs");
        assert(file_paths(files@) =~= basic_paths());
        assert(files@.len() == 7);
        assert forall|j: int| 0 <= j < files@.len() implies files@[j].path@
            != "src/components/app.orbitrs"@ by {
            assert(files@[j].path@ == file_paths(files@)[j]);
            assert(file_paths(files@)[j] == basic_paths()[j]);
        }
        lemma_find_file_absent(files@, "src/components/app.orbitrs"@);
    }
    set_file(
        &mut files,
        "src/components/app.orbitrs",
        "<template>\n  <div class=\"app\">\n    <header>\n      <h1>{{ project.project_name }}</h1>\n    </header>\n    <main>\n      <counter></counter>\n    </main>\n    <footer>\n      <p>Built with Orbit UI Framework</p>\n    </footer>\n  </div>\n</template>\n\n<style>\n.app {\n  display: flex;\n  flex-direction: column;\n  min-height: 100vh;\n}\n</style>\n\n<script>\nuse orbitrs::prelude::*;\nuse crate::components::counter::Counter;\n\npub struct App;\n\nimpl Component for App {\n    type Props = ();\n\n    fn new(_props: Self::Props) -> Self {\n        Self\n    }\n\n    fn render(&self) -> String {\n        \"App component\".to_string()\n    }\n}\n</script>\n",
    );
    proof {
        reveal_strlit("Cargo.toml");
        reveal_strlit("src/lib.rs");
        reveal_strlit("src/main.rs");
        reveal_strlit("src/components/mod.rs");
        reveal_strlit("src/components/counter.orbitrs");
        reveal_strlit("README.md");
        reveal_strlit("orbit.config.json");
        reveal_strlit("src/components/app.orbitrs");
        assert(file_paths(files@) =~= basic_paths().push("src/components/app.orbitrs"@));
        assert(files@.len() == 8);
        assert forall|j: int| 0 <= j < files@.len() implies files@[j].path@ == basic_paths().push(
            "src/components/app.orbitrs"@,
        )[j] by {
            assert(files@[j].path@ == file_paths(files@)[j]);
        }
        assert(basic_paths()[0] != "src/components/mod.rs"@) by {
            assert("Cargo.toml"@.len() == 10);
            assert("src/components/mod.rs"@.len() == 21);
        }
        assert(basic_paths()[1] != "src/components/mod.rs"@) by {
            assert("src/lib.rs"@.len() == 10);
        }
        assert(basic_paths()[2] != "src/components/mod.rs"@) by {
            assert("src/main.rs"@.len() == 11);
        }
        lemma_find_file_at(files@, "src/components/mod.rs"@, 3);
    }
    set_file(
        &mut files,
        "src/components/mod.rs",
        "// Components for {{ project.project_name }}\n\npub mod app;\npub mod counter;\n",
    );
    proof {
        assert(file_paths(files@) =~= basic_paths().push("src/components/app.orbitrs"@));
    }
    files
}

/// The template named `name`: `basic`, `component-library` or `full-app`.
/// Any other name is rejected with a message naming it.
pub fn get_template(name: &str) -> (r: Result<Vec<TemplateFile>, String>)
    ensures
        name@ == "basic"@ ==> (r matches Ok(v) && file_paths(v@) == basic_paths()),
        name@ == "component-library"@ ==> (r matches Ok(v) && file_paths(v@) == basic_paths().push(
            "src/components/button.orbitrs"@,
        )),
        name@ == "full-app"@ ==> (r matches Ok(v) && file_paths(v@) == basic_paths().push(
            "src/components/app.orbitrs"@,
        )),
        name@ != "basic"@ && name@ != "component-library"@ && name@ != "full-app"@ ==> (r matches
            Err(m) && m@ == "Unknown template: "@ + name@),
{
    proof {
        reveal_strlit("basic");
        reveal_strlit("component-library");
        reveal_strlit("full-app");
    }
    if text::str_eq(name, "basic") {
        proof {
            reveal_strlit("basic");
            reveal_strlit("component-library");
            reveal_strlit("full-app");
            assert("basic"@.len() == 5);
            assert("component-library"@.len() == 17);
            assert("full-app"@.len() == 8);
            assert(name@ != "component-library"@);
            assert(name@ != "full-app"@);
        }
        Ok(basic_template())
    } else if text::str_eq(name, "component-library") {
        proof {
            reveal_strlit("component-library");
            reveal_strlit("full-app");
            assert("component-library"@.len() == 17);
            assert("full-app"@.len() == 8);
            assert(name@ != "full-app"@);
        }
        Ok(component_library_template())
    } else if text::str_eq(name, "full-app") {
        Ok(full_app_template())
    } else {
        let mut m = text::to_string("Unknown template: ");
        m.append(name);
        Err(m)
    }
}

} // verus!
