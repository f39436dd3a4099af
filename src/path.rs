//! Paths of the application's directories and images. Directories are
//! created outside; here the paths are composed.
use vstd::prelude::*;

verus! {

/// Name of the system, and of its directories.
pub const NAME: &'static str = "roktrack";

/// Persistent data directory.
pub const PERSISTENT_DIR: &'static str = "/data/";

/// Ephemeral data directory.
pub const EPHEMERAL_DIR: &'static str = "/run/user/1000/";

/// Image directory.
pub const IMG_DIR: &'static str = "img";

/// Log directory.
pub const LOG_DIR: &'static str = "log";

/// Configuration file.
pub const CONF_FILE: &'static str = "conf.toml";

/// Last captured image.
pub const LAST_IMAGE: &'static str = "vision.jpg";

/// Cropped image.
pub const CROP_IMAGE: &'static str = "crop.jpg";

/// A path with one more component: an absolute component replaces the
/// path; otherwise a separator goes between unless the path is empty or
/// already ends with one.
pub open spec fn pushed(acc: Seq<char>, p: Seq<char>) -> Seq<char> {
    if p.len() > 0 && p[0] == '/' {
        p
    } else if acc.len() == 0 || acc.last() == '/' {
        acc + p
    } else {
        acc + seq!['/'] + p
    }
}

/// The components pushed one after the other onto the empty path.
pub open spec fn joined(ps: Seq<Seq<char>>) -> Seq<char>
    decreases ps.len(),
{
    if ps.len() == 0 {
        Seq::empty()
    } else {
        pushed(joined(ps.drop_last()), ps.last())
    }
}

/// Views of the components.
pub open spec fn views(paths: Seq<&str>) -> Seq<Seq<char>> {
    paths.map_values(|p: &str| p@)
}

fn push_component(acc: &mut String, p: &str)
    ensures
        final(acc)@ == pushed(old(acc)@, p@),
{
    let n = p.unicode_len();
    if n > 0 && p.get_char(0) == '/' {
        *acc = String::from_str(p);
    } else {
        let m = acc.as_str().unicode_len();
        if m == 0 || acc.as_str().get_char(m - 1) == '/' {
            acc.append(p);
        } else {
            proof {
                reveal_strlit("/");
            }
            acc.append("/");
            acc.append(p);
        }
    }
}

/// Join path components.
pub fn join(paths: &[&str]) -> (r: String)
    ensures
        r@ == joined(views(paths@)),
{
    let mut path = String::new();
    let mut i: usize = 0;
    while i < paths.len()
        invariant
            i <= paths@.len(),
            path@ == joined(views(paths@.subrange(0, i as int))),
        decreases paths@.len() - i,
    {
        push_component(&mut path, paths[i]);
        proof {
            let v = views(paths@.subrange(0, i + 1));
            assert(v.drop_last() =~= views(paths@.subrange(0, i as int)));
            assert(v.last() == paths@[i as int]@);
        }
        i = i + 1;
    }
    assert(paths@.subrange(0, paths@.len() as int) == paths@);
    path
}

/// The two-component join.
pub fn join2(a: &str, b: &str) -> (r: String)
    ensures
        r@ == pushed(pushed(Seq::empty(), a@), b@),
{
    let mut path = String::new();
    push_component(&mut path, a);
    push_component(&mut path, b);
    path
}

/// The subdirectory `name` of `dir1` when that directory exists, else of
/// `dir2`.
pub fn subdir_in_either_dir(dir1: &str, dir2: &str, name: &str, dir1_exists: bool) -> (r: String)
    ensures
        r@ == pushed(pushed(Seq::empty(), if dir1_exists { dir1@ } else { dir2@ }), name@),
{
    let parent = if dir1_exists { dir1 } else { dir2 };
    join2(parent, name)
}

/// The data directory: under the persistent directory when it exists, else
/// under the ephemeral one.
pub fn data_dir_path(persistent_exists: bool) -> (r: String)
    ensures
        r@ == pushed(
            pushed(Seq::empty(), if persistent_exists { PERSISTENT_DIR@ } else { EPHEMERAL_DIR@ }),
            NAME@,
        ),
{
    subdir_in_either_dir(PERSISTENT_DIR, EPHEMERAL_DIR, NAME, persistent_exists)
}

/// The temporary directory, under the ephemeral one.
pub fn tmp_dir_path() -> (r: String)
    ensures
        r@ == pushed(pushed(Seq::empty(), EPHEMERAL_DIR@), NAME@),
{
    join2(EPHEMERAL_DIR, NAME)
}

/// Paths of resources.
#[derive(Debug, Clone)]
pub struct RoktrackPath {
    /// Directories.
    pub dir: RoktrackDir,
    /// Images.
    pub img: RoktrackImg,
}

/// Paths of directories.
#[derive(Debug, Clone)]
pub struct RoktrackDir {
    pub data: String,
    pub tmp: String,
    pub img: String,
    pub log: String,
}

/// Paths of images.
#[derive(Debug, Clone)]
pub struct RoktrackImg {
    /// The last captured image.
    pub last: String,
    /// The cropped image.
    pub crop: String,
}

/// The two-component join as a spec.
pub open spec fn join_two(a: Seq<char>, b: Seq<char>) -> Seq<char> {
    pushed(pushed(Seq::empty(), a), b)
}

/// The application's paths under a data and a temporary directory: images
/// and logs under the data directory, the captured and cropped images in the
/// temporary one.
pub fn app_paths(data_dir: &str, tmp_dir: &str) -> (r: RoktrackPath)
    ensures
        r.dir.data@ == data_dir@,
        r.dir.tmp@ == tmp_dir@,
        r.dir.img@ == join_two(data_dir@, IMG_DIR@),
        r.dir.log@ == join_two(data_dir@, LOG_DIR@),
        r.img.last@ == join_two(tmp_dir@, join_two(tmp_dir@, LAST_IMAGE@)),
        r.img.crop@ == join_two(tmp_dir@, join_two(tmp_dir@, CROP_IMAGE@)),
{
    let img = join2(data_dir, IMG_DIR);
    let log = join2(data_dir, LOG_DIR);
    let last_img = join2(tmp_dir, LAST_IMAGE);
    let crop_img = join2(tmp_dir, CROP_IMAGE);
    let last = join2(tmp_dir, last_img.as_str());
    let crop = join2(tmp_dir, crop_img.as_str());
    RoktrackPath {
        dir: RoktrackDir {
            data: String::from_str(data_dir),
            tmp: String::from_str(tmp_dir),
            img,
            log,
        },
        img: RoktrackImg { last, crop },
    }
}

} // verus!
