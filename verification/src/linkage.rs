//! What a build hands on of each shader entry point: where its module lies and
//! under which names it is found.

use vstd::prelude::*;
use crate::command::texts_view;
use crate::text::{chars_of, find_from, find_in, lemma_find_from, replace_all, replaced, string_of};

verus! {

/// Shader source and entry point that can be used to create shader linkage.
#[derive(Clone, Debug, PartialEq, Eq, PartialOrd, Ord)]
pub struct Linkage {
    /// The path of the module of the entry point, with `/` between its
    /// components.
    pub source_path: String,
    /// The name of the entry point for SPIR-V and Vulkan.
    pub entry_point: String,
    /// The name of the entry point for WGSL, which is the name without any
    /// `::`.
    pub wgsl_entry_point: String,
}

/// What a `Linkage` stands for.
pub struct LinkageModel {
    pub source_path: Seq<char>,
    pub entry_point: Seq<char>,
    pub wgsl_entry_point: Seq<char>,
}

impl View for Linkage {
    type V = LinkageModel;

    open spec fn view(&self) -> LinkageModel {
        LinkageModel {
            source_path: self.source_path@,
            entry_point: self.entry_point@,
            wgsl_entry_point: self.wgsl_entry_point@,
        }
    }
}

/// What separates the modules of a path to an item.
pub open spec fn path_separator() -> Seq<char> {
    "::"@
}

/// `parts` in one text, with `sep` between each two.
pub open spec fn joined_with(parts: Seq<Seq<char>>, sep: Seq<char>) -> Seq<char>
    decreases parts.len(),
{
    if parts.len() == 0 {
        Seq::empty()
    } else if parts.len() == 1 {
        parts[0]
    } else {
        joined_with(parts.drop_last(), sep) + sep + parts.last()
    }
}

/// What follows the last occurrence of `pat` in `s[from..]`, the occurrences
/// being found from left to right without overlap; all of `s[from..]` where
/// `pat` does not occur in it or is empty.
pub open spec fn after_last(s: Seq<char>, pat: Seq<char>, from: int) -> Seq<char>
    decreases s.len() - from + 1,
{
    if pat.len() == 0 || from < 0 || from > s.len() {
        s.subrange(from, s.len() as int)
    } else {
        match find_from(s, pat, from) {
            Some(i) => {
                proof {
                    lemma_find_from(s, pat, from);
                }
                after_last(s, pat, i + pat.len())
            },
            None => s.subrange(from, s.len() as int),
        }
    }
}

/// What `std::path::Path::components` makes of `path`: the text of each of its
/// components, in order.
pub uninterp spec fn components_of(path: Seq<char>) -> Seq<Seq<char>>;

/// `std::path::Path::components`: the components of `path`, each as text.
#[verifier::external_body]
fn path_components(path: &str) -> (parts: Vec<String>)
    ensures
        texts_view(parts@) == components_of(path@),
{
    std::path::Path::new(path).components().map(
        |part| part.as_os_str().to_string_lossy().into_owned(),
    ).collect()
}

/// The linkage of the entry point `entry_point` whose module has the path
/// components `components`.
pub open spec fn linkage_of(entry_point: Seq<char>, components: Seq<Seq<char>>) -> LinkageModel {
    LinkageModel {
        source_path: joined_with(components, "/"@),
        entry_point,
        wgsl_entry_point: replaced(entry_point, path_separator(), Seq::empty()),
    }
}

impl Linkage {
    /// Makes a new `Linkage` from an entry point and the path of its module.
    /// The path is written with `/` whatever the platform, one component after
    /// the other.
    pub fn new(entry_point: &str, source_path: &str) -> (linkage: Self)
        ensures
            linkage@ == linkage_of(entry_point@, components_of(source_path@)),
    {
        let components = path_components(source_path);
        Self::from_components(entry_point, &components)
    }

    /// Makes a new `Linkage` from an entry point and the components of the
    /// path of its module.
    pub fn from_components(entry_point: &str, components: &Vec<String>) -> (linkage: Self)
        ensures
            linkage@ == linkage_of(entry_point@, texts_view(components@)),
    {
        let mut source_path = String::new();
        let mut i: usize = 0;
        let ghost parts = texts_view(components@);
        assert(parts.subrange(0, 0) =~= Seq::<Seq<char>>::empty());
        while i < components.len()
            invariant
                i <= components.len(),
                parts == texts_view(components@),
                source_path@ == joined_with(parts.subrange(0, i as int), "/"@),
            decreases components.len() - i,
        {
            assert(parts.subrange(0, i + 1).drop_last() =~= parts.subrange(0, i as int));
            assert(parts.subrange(0, i + 1).last() == components@[i as int]@);
            if i > 0 {
                source_path.append("/");
            } else {
                assert(parts.subrange(0, 1)[0] == components@[0]@);
                assert(source_path@ + components@[0]@ =~= components@[0]@);
            }
            source_path.append(components[i].as_str());
            i += 1;
        }
        assert(parts.subrange(0, components.len() as int) =~= parts);
        let name = chars_of(entry_point);
        let separator = chars_of("::");
        let nothing: Vec<char> = Vec::new();
        let wgsl = replace_all(&name, &separator, &nothing);
        Linkage {
            source_path,
            wgsl_entry_point: string_of(&wgsl),
            entry_point: entry_point.to_owned(),
        }
    }

    /// The name of the entry point function, without the modules before it.
    pub fn fn_name(&self) -> (name: &str)
        ensures
            name@ == after_last(self@.entry_point, path_separator(), 0),
    {
        let text = chars_of(self.entry_point.as_str());
        let separator = chars_of("::");
        proof {
            reveal_strlit("::");
        }
        let mut from: usize = 0;
        loop
            invariant
                separator@ == path_separator(),
                separator.len() > 0,
                text@ == self.entry_point@,
                from <= text.len(),
                after_last(text@, separator@, from as int) == after_last(
                    text@,
                    separator@,
                    0,
                ),
            decreases text.len() - from,
        {
            proof {
                lemma_find_from(text@, separator@, from as int);
            }
            match find_in(&text, &separator, from) {
                Some(i) => {
                    from = i + separator.len();
                },
                None => {
                    return self.entry_point.as_str().substring_char(from, text.len());
                },
            }
        }
    }
}

/// A built shader entry point, as the manifest of a build lists it.
#[derive(Clone, Debug, PartialEq, Eq, PartialOrd, Ord)]
pub struct ShaderModule {
    /// The name of the entry point for SPIR-V and Vulkan.
    pub entry: String,
    /// The path of the module of the entry point.
    pub path: String,
}

impl ShaderModule {
    /// Makes a new `ShaderModule` from an entry point and the path of its
    /// module.
    pub fn new(entry: &str, path: &str) -> (module: Self)
        ensures
            module.entry@ == entry@,
            module.path@ == path@,
    {
        Self { entry: entry.to_owned(), path: path.to_owned() }
    }
}

/// What a `ShaderModule` stands for: the entry point and the path of its
/// module.
pub open spec fn module_view(module: ShaderModule) -> (Seq<char>, Seq<char>) {
    (module.entry@, module.path@)
}

/// What each of `modules` stands for.
pub open spec fn modules_view(modules: Seq<ShaderModule>) -> Seq<(Seq<char>, Seq<char>)> {
    modules.map_values(|module: ShaderModule| module_view(module))
}

/// What a build has made.
#[derive(Clone, Debug, PartialEq, Eq)]
pub enum ModuleResult {
    /// One module, at this path, that holds every entry point.
    SingleModule(String),
    /// One module for each entry point.
    MultiModule(Vec<ShaderModule>),
}

/// What a `ModuleResult` stands for.
pub enum ModuleResultModel {
    SingleModule(Seq<char>),
    MultiModule(Seq<(Seq<char>, Seq<char>)>),
}

impl View for ModuleResult {
    type V = ModuleResultModel;

    open spec fn view(&self) -> ModuleResultModel {
        match self {
            ModuleResult::SingleModule(path) => ModuleResultModel::SingleModule(path@),
            ModuleResult::MultiModule(modules) => ModuleResultModel::MultiModule(
                modules_view(modules@),
            ),
        }
    }
}

/// A build made no module at all.
#[derive(Clone, Copy, Debug, PartialEq, Eq, Structural)]
pub struct NoShaderModules;

/// The modules of a build, entry point by entry point: every entry point with
/// the one module where the build made one, and the modules as they are where
/// it made one for each. `None` where it was to make one for each and made
/// none.
pub open spec fn modules_of(
    entry_points: Seq<Seq<char>>,
    module: ModuleResultModel,
) -> Option<Seq<(Seq<char>, Seq<char>)>> {
    match module {
        ModuleResultModel::SingleModule(path) => Some(
            Seq::new(entry_points.len(), |i: int| (entry_points[i], path)),
        ),
        ModuleResultModel::MultiModule(modules) => if modules.len() == 0 {
            None
        } else {
            Some(modules)
        },
    }
}

/// Lists the modules of a build, entry point by entry point, given the entry
/// points of the build and what it made.
pub fn shader_modules(entry_points: &Vec<String>, module: &ModuleResult) -> (r: Result<
    Vec<ShaderModule>,
    NoShaderModules,
>)
    ensures
        match modules_of(texts_view(entry_points@), module@) {
            Some(modules) => r matches Ok(list) && modules_view(list@) == modules,
            None => r is Err,
        },
{
    let mut list: Vec<ShaderModule> = Vec::new();
    match module {
        ModuleResult::SingleModule(path) => {
            let mut i: usize = 0;
            while i < entry_points.len()
                invariant
                    i <= entry_points.len(),
                    list.len() == i,
                    forall|k: int|
                        0 <= k < i ==> module_view(#[trigger] list@[k]) == (
                            entry_points@[k]@,
                            path@,
                        ),
                decreases entry_points.len() - i,
            {
                list.push(ShaderModule::new(entry_points[i].as_str(), path.as_str()));
                i += 1;
            }
            assert(modules_view(list@) =~= Seq::new(
                texts_view(entry_points@).len(),
                |i: int| (texts_view(entry_points@)[i], path@),
            ));
            Ok(list)
        },
        ModuleResult::MultiModule(modules) => {
            if modules.len() == 0 {
                return Err(NoShaderModules);
            }
            let mut i: usize = 0;
            while i < modules.len()
                invariant
                    i <= modules.len(),
                    list.len() == i,
                    forall|k: int|
                        0 <= k < i ==> module_view(#[trigger] list@[k]) == module_view(
                            modules@[k],
                        ),
                decreases modules.len() - i,
            {
                list.push(ShaderModule::new(modules[i].entry.as_str(), modules[i].path.as_str()));
                i += 1;
            }
            assert(modules_view(list@) =~= modules_view(modules@));
            Ok(list)
        },
    }
}

} // verus!
