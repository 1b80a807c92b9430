//! Raw engine payloads and their conversion into display records.
//!
//! The engine reports resources with optional fields and raw values; the
//! functions here turn one reported entry into the record the store keeps:
//! ids are shortened, names lose their leading separator, ports are joined
//! into one line, sizes are formatted, and missing fields fall back to
//! sentinel text.

use vstd::prelude::*;
use vstd::string::StrSliceExecFns;
use vstd::string::StringExecFns;

use crate::resources::ContainerInfo;
use crate::resources::ContainerState;
use crate::resources::ImageInfo;
use crate::resources::VolumeInfo;
use crate::sizes::dec_digits;
use crate::sizes::format_size;
use crate::sizes::push_dec;
use crate::sizes::size_text;

verus! {

/// One port mapping as the engine reports it.
#[derive(Clone, Copy, Debug, PartialEq, Eq)]
pub struct EnginePort {
    /// Port published on the host, when one is.
    pub public_port: Option<u16>,
    /// Port inside the container.
    pub private_port: u16,
}

/// One container entry as the engine reports it.
#[derive(Clone, Debug, PartialEq, Eq)]
pub struct EngineContainer {
    /// Full engine-assigned identifier.
    pub id: Option<String>,
    /// Names, each with the engine's leading separator.
    pub names: Option<Vec<String>>,
    /// Image reference.
    pub image: Option<String>,
    /// Free-form status text.
    pub status: Option<String>,
    /// Reported port mappings.
    pub ports: Option<Vec<EnginePort>>,
    /// Reported state word.
    pub state: Option<String>,
}

/// One image entry as the engine reports it.
#[derive(Clone, Debug, PartialEq, Eq)]
pub struct EngineImage {
    /// Content-addressed identifier.
    pub id: String,
    /// Repository/tag associations, each as one `repository:tag` string.
    pub repo_tags: Vec<String>,
    /// Size in bytes.
    pub size: i64,
}

/// One volume entry as the engine reports it.
#[derive(Clone, Debug, PartialEq, Eq)]
pub struct EngineVolume {
    /// Volume name.
    pub name: String,
    /// Driver name.
    pub driver: String,
    /// Mount path on the host.
    pub mountpoint: String,
}

/// The text of an optional string.
pub open spec fn text_of(o: Option<String>) -> Option<Seq<char>> {
    match o {
        Some(s) => Some(s@),
        None => None,
    }
}

/// The texts of an optional list of strings.
pub open spec fn names_view(o: Option<Vec<String>>) -> Option<Seq<Seq<char>>> {
    match o {
        Some(v) => Some(v.deep_view()),
        None => None,
    }
}

/// The entries of an optional list of port mappings.
pub open spec fn ports_view(o: Option<Vec<EnginePort>>) -> Option<Seq<EnginePort>> {
    match o {
        Some(v) => Some(v@),
        None => None,
    }
}

/// An optional text, with a sentinel for a missing one.
pub open spec fn or_unknown(o: Option<Seq<char>>) -> Seq<char> {
    match o {
        Some(s) => s,
        None => "unknown"@,
    }
}

/// Short display id: the first twelve characters of the reported id, or
/// a sentinel when none was reported.
pub open spec fn short_id_text(id: Option<Seq<char>>) -> Seq<char> {
    match id {
        Some(s) => if s.len() <= 12 {
            s
        } else {
            s.subrange(0, 12)
        },
        None => "unknown"@,
    }
}

/// A name with every leading separator removed.
pub open spec fn trimmed_name(s: Seq<char>) -> Seq<char>
    decreases s.len(),
{
    if s.len() > 0 && s[0] == '/' {
        trimmed_name(s.drop_first())
    } else {
        s
    }
}

/// Display name: the first reported name without its leading separators,
/// or a sentinel when none was reported.
pub open spec fn name_text(names: Option<Seq<Seq<char>>>) -> Seq<char> {
    match names {
        Some(ns) => if ns.len() == 0 {
            "unnamed"@
        } else {
            trimmed_name(ns[0])
        },
        None => "unnamed"@,
    }
}

/// The text of one port mapping: `public:private`, or the private port
/// alone when none is published.
pub open spec fn port_entry_text(p: EnginePort) -> Seq<char> {
    match p.public_port {
        Some(pp) => dec_digits(pp as int) + seq![':'] + dec_digits(p.private_port as int),
        None => dec_digits(p.private_port as int),
    }
}

/// Port mapping texts joined with a comma and a space.
pub open spec fn ports_join(ps: Seq<EnginePort>) -> Seq<char>
    decreases ps.len(),
{
    if ps.len() == 0 {
        Seq::empty()
    } else if ps.len() == 1 {
        port_entry_text(ps[0])
    } else {
        ports_join(ps.drop_last()) + seq![',', ' '] + port_entry_text(ps.last())
    }
}

/// The port column: the joined mappings, or a sentinel when none were
/// reported.
pub open spec fn ports_text(ps: Option<Seq<EnginePort>>) -> Seq<char> {
    match ps {
        Some(v) => if v.len() == 0 {
            "--"@
        } else {
            ports_join(v)
        },
        None => "--"@,
    }
}

/// Index of the first `:` at or after `from`, or the length when there
/// is none.
pub open spec fn first_colon(s: Seq<char>, from: int) -> int
    decreases s.len() - from,
{
    if from < 0 || from >= s.len() {
        s.len() as int
    } else if s[from] == ':' {
        from
    } else {
        first_colon(s, from + 1)
    }
}

/// Repository part of a `repository:tag` string: everything ahead of the
/// first `:`, or the whole string when there is none.
pub open spec fn repo_text(s: Seq<char>) -> Seq<char> {
    s.subrange(0, first_colon(s, 0))
}

/// Tag part of a `repository:tag` string: the piece between the first
/// `:` and the next one or the end, or a sentinel when there is no `:`.
pub open spec fn tag_text(s: Seq<char>) -> Seq<char> {
    let c1 = first_colon(s, 0);
    if c1 == s.len() {
        "<none>"@
    } else {
        s.subrange(c1 + 1, first_colon(s, c1 + 1))
    }
}

/// Repository and tag for an image: split from the first association, or
/// sentinels when the engine reports none.
pub open spec fn repo_tag_text(tags: Seq<Seq<char>>) -> (Seq<char>, Seq<char>) {
    if tags.len() == 0 {
        ("<none>"@, "<none>"@)
    } else {
        (repo_text(tags[0]), tag_text(tags[0]))
    }
}

proof fn lemma_first_colon_bounds(s: Seq<char>, from: int)
    requires
        0 <= from <= s.len(),
    ensures
        from <= first_colon(s, from) <= s.len(),
    decreases s.len() - from,
{
    if from < s.len() && s[from] != ':' {
        lemma_first_colon_bounds(s, from + 1);
    }
}

proof fn lemma_trimmed_skip(s: Seq<char>, i: int)
    requires
        0 <= i <= s.len(),
        forall|j: int| 0 <= j < i ==> s[j] == '/',
    ensures
        trimmed_name(s) == trimmed_name(s.subrange(i, s.len() as int)),
    decreases i,
{
    if i > 0 {
        assert(s[0] == '/');
        assert(s.drop_first() =~= s.subrange(1, s.len() as int));
        lemma_trimmed_skip(s.drop_first(), i - 1);
        assert(s.drop_first().subrange(i - 1, s.drop_first().len() as int) =~= s.subrange(
            i,
            s.len() as int,
        ));
    } else {
        assert(s.subrange(0, s.len() as int) =~= s);
    }
}

/// Short display id for a reported container id.
pub fn short_id(id: &Option<String>) -> (r: String)
    ensures
        r@ == short_id_text(text_of(*id)),
{
    match id {
        None => "unknown".to_owned(),
        Some(s) => {
            let n = s.as_str().unicode_len();
            if n <= 12 {
                s.clone()
            } else {
                s.as_str().substring_char(0, 12).to_owned()
            }
        },
    }
}

/// Display name for a reported name list.
pub fn display_name(names: &Option<Vec<String>>) -> (r: String)
    ensures
        r@ == name_text(names_view(*names)),
{
    match names {
        None => "unnamed".to_owned(),
        Some(ns) => {
            if ns.len() == 0 {
                "unnamed".to_owned()
            } else {
                let s = ns[0].as_str();
                let n = s.unicode_len();
                let mut i: usize = 0;
                while i < n && s.get_char(i) == '/'
                    invariant
                        i <= n,
                        n as nat == s@.len(),
                        forall|j: int| 0 <= j < i ==> s@[j] == '/',
                    decreases n - i,
                {
                    i += 1;
                }
                let r = s.substring_char(i, n).to_owned();
                proof {
                    lemma_trimmed_skip(s@, i as int);
                }
                r
            }
        },
    }
}

/// The text of an optional field, with the sentinel for a missing one.
pub fn text_or_unknown(o: &Option<String>) -> (r: String)
    ensures
        r@ == or_unknown(text_of(*o)),
{
    match o {
        Some(s) => s.clone(),
        None => "unknown".to_owned(),
    }
}

/// Lifecycle state for a reported state word: running exactly when the
/// engine says so, stopped for every other or missing word.
pub fn state_from_engine(state: &Option<String>) -> (r: ContainerState)
    ensures
        r is Running <==> text_of(*state) == Some("running"@),
{
    match state {
        Some(s) => {
            let running: String = "running".to_owned();
            if *s == running {
                ContainerState::Running
            } else {
                ContainerState::Stopped
            }
        },
        None => ContainerState::Stopped,
    }
}

/// Appends the text of one port mapping to `out`.
fn push_port(out: &mut String, p: &EnginePort)
    ensures
        final(out)@ == old(out)@ + port_entry_text(*p),
{
    match p.public_port {
        Some(pp) => {
            push_dec(out, pp as u64);
            out.append(":");
            push_dec(out, p.private_port as u64);
            proof {
                reveal_strlit(":");
                assert(out@ =~= old(out)@ + port_entry_text(*p));
            }
        },
        None => {
            push_dec(out, p.private_port as u64);
        },
    }
}

/// The port column for a reported port list.
pub fn format_ports(ports: &Option<Vec<EnginePort>>) -> (r: String)
    ensures
        r@ == ports_text(ports_view(*ports)),
{
    match ports {
        None => "--".to_owned(),
        Some(v) => {
            if v.len() == 0 {
                "--".to_owned()
            } else {
                let mut out = String::new();
                let mut i: usize = 0;
                while i < v.len()
                    invariant
                        0 < v@.len(),
                        i <= v@.len(),
                        i == 0 ==> out@ == Seq::<char>::empty(),
                        i > 0 ==> out@ == ports_join(v@.subrange(0, i as int)),
                    decreases v@.len() - i,
                {
                    if i > 0 {
                        out.append(", ");
                    }
                    push_port(&mut out, &v[i]);
                    proof {
                        reveal_strlit(", ");
                        assert(v@.subrange(0, i + 1 as int).drop_last() =~= v@.subrange(
                            0,
                            i as int,
                        ));
                        assert(out@ =~= ports_join(v@.subrange(0, i + 1 as int)));
                    }
                    i += 1;
                }
                proof {
                    assert(v@.subrange(0, v@.len() as int) =~= v@);
                }
                out
            }
        },
    }
}

/// Index of the first `:` in `s` at or after `from`, or the character
/// length when there is none.
fn find_colon(s: &str, from: usize) -> (r: usize)
    requires
        from as int <= s@.len(),
    ensures
        r as int == first_colon(s@, from as int),
{
    let n = s.unicode_len();
    let mut i = from;
    while i < n
        invariant
            from <= i <= n,
            n as nat == s@.len(),
            first_colon(s@, from as int) == first_colon(s@, i as int),
        decreases n - i,
    {
        if s.get_char(i) == ':' {
            return i;
        }
        i += 1;
    }
    n
}

/// Repository and tag split from an image's tag associations.
pub fn split_repo_tag(tags: &Vec<String>) -> (r: (String, String))
    ensures
        r.0@ == repo_tag_text(tags.deep_view()).0,
        r.1@ == repo_tag_text(tags.deep_view()).1,
{
    if tags.len() == 0 {
        ("<none>".to_owned(), "<none>".to_owned())
    } else {
        let s = tags[0].as_str();
        let n = s.unicode_len();
        proof {
            lemma_first_colon_bounds(s@, 0);
        }
        let c1 = find_colon(s, 0);
        let repo = s.substring_char(0, c1).to_owned();
        let tag = if c1 == n {
            "<none>".to_owned()
        } else {
            proof {
                lemma_first_colon_bounds(s@, c1 + 1 as int);
            }
            let c2 = find_colon(s, c1 + 1);
            s.substring_char(c1 + 1, c2).to_owned()
        };
        (repo, tag)
    }
}

/// Builds the display record for one reported container entry.
pub fn container_from_engine(c: &EngineContainer) -> (r: ContainerInfo)
    ensures
        r.id@ == short_id_text(text_of(c.id)),
        r.name@ == name_text(names_view(c.names)),
        r.image@ == or_unknown(text_of(c.image)),
        r.status@ == or_unknown(text_of(c.status)),
        r.ports@ == ports_text(ports_view(c.ports)),
        r.state is Running <==> text_of(c.state) == Some("running"@),
{
    ContainerInfo {
        id: short_id(&c.id),
        name: display_name(&c.names),
        image: text_or_unknown(&c.image),
        status: text_or_unknown(&c.status),
        ports: format_ports(&c.ports),
        state: state_from_engine(&c.state),
    }
}

/// Builds the display record for one reported image entry.
pub fn image_from_engine(img: &EngineImage) -> (r: ImageInfo)
    ensures
        r.id@ == img.id@,
        r.repository@ == repo_tag_text(img.repo_tags.deep_view()).0,
        r.tag@ == repo_tag_text(img.repo_tags.deep_view()).1,
        r.size@ == size_text(img.size as int),
{
    let (repository, tag) = split_repo_tag(&img.repo_tags);
    ImageInfo { id: img.id.clone(), repository, tag, size: format_size(img.size) }
}

/// Builds the display record for one reported volume entry; the engine
/// does not report a size here, so that column is a sentinel.
pub fn volume_from_engine(v: &EngineVolume) -> (r: VolumeInfo)
    ensures
        r.name@ == v.name@,
        r.driver@ == v.driver@,
        r.mountpoint@ == v.mountpoint@,
        r.size@ == "--"@,
{
    VolumeInfo {
        name: v.name.clone(),
        driver: v.driver.clone(),
        mountpoint: v.mountpoint.clone(),
        size: "--".to_owned(),
    }
}

} // verus!
