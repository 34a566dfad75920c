//! Where modules and kernel handles come from.

use crate::error::RvllmError;
use crate::kernels::module::{file_with_stem, KernelFn, KernelLoader, LoadedModule, PtxImage};
use crate::symbols::lookup_finds_an_entry;
use vstd::prelude::*;

verus! {

/// The module that comes of a stem is that of the first file with the stem: it
/// knows the file's path, and holds its handle and its functions.
pub proof fn modules_come_from_their_files(
    loader: KernelLoader,
    stem: &str,
    m: LoadedModule,
    i: int,
)
    requires
        call_ensures(
            KernelLoader::load_ptx,
            (&loader, stem),
            Ok::<LoadedModule, RvllmError>(m),
        ),
        0 <= i < loader.files@.len(),
        loader.files@[i].stem@ == stem@,
        forall|j: int| 0 <= j < i ==> (#[trigger] loader.files@[j]).stem@ != stem@,
    ensures
        m.file() == loader.files@[i].path@,
        match loader.files@[i].image {
            PtxImage::Loaded { raw, symbols } => m.handle() == raw && m.functions() == Some(
                symbols@,
            ),
            PtxImage::Read => m.handle() == 0 && m.functions() is None,
            _ => false,
        },
{
    assert(loader.files@[i].stem@ == stem@);
    assert(file_with_stem(loader.files@, stem@) == Some(i));
}

/// A stem that no file has gives no module, and neither does a file that could
/// not be read or that the driver refused.
pub proof fn modules_need_their_files(
    loader: KernelLoader,
    stem: &str,
    r: Result<LoadedModule, RvllmError>,
)
    requires
        call_ensures(KernelLoader::load_ptx, (&loader, stem), r),
        forall|i: int|
            0 <= i < loader.files@.len() && (#[trigger] loader.files@[i]).stem@ == stem@ ==> (
            loader.files@[i].image is Unreadable || loader.files@[i].image is Rejected),
    ensures
        r is Err,
{
    if exists|i: int| 0 <= i < loader.files@.len() && (#[trigger] loader.files@[i]).stem@ == stem@ {
        let i = first_of(loader, stem@);
        assert(file_with_stem(loader.files@, stem@) == Some(i));
    }
}

proof fn first_of(loader: KernelLoader, stem: Seq<char>) -> (i: int)
    requires
        exists|i: int| 0 <= i < loader.files@.len() && (#[trigger] loader.files@[i]).stem@ == stem,
    ensures
        0 <= i < loader.files@.len(),
        loader.files@[i].stem@ == stem,
        forall|j: int| 0 <= j < i ==> (#[trigger] loader.files@[j]).stem@ != stem,
{
    let k = choose|i: int|
        0 <= i < loader.files@.len() && (#[trigger] loader.files@[i]).stem@ == stem;
    first_up_to(loader, stem, k)
}

proof fn first_up_to(loader: KernelLoader, stem: Seq<char>, k: int) -> (i: int)
    requires
        0 <= k < loader.files@.len(),
        loader.files@[k].stem@ == stem,
    ensures
        0 <= i <= k,
        loader.files@[i].stem@ == stem,
        forall|j: int| 0 <= j < i ==> (#[trigger] loader.files@[j]).stem@ != stem,
    decreases k,
{
    if exists|j: int| 0 <= j < k && (#[trigger] loader.files@[j]).stem@ == stem {
        let j = choose|j: int| 0 <= j < k && (#[trigger] loader.files@[j]).stem@ == stem;
        first_up_to(loader, stem, j)
    } else {
        k
    }
}

/// A handle has the name that was asked for and the address that the module has
/// under it; a name that the module lacks, or that holds a NUL character, gives
/// none, and the error on a name that the module lacks names it.
pub proof fn handles_come_from_their_modules(
    m: LoadedModule,
    name: &'static str,
    r: Result<KernelFn, RvllmError>,
)
    requires
        call_ensures(LoadedModule::get_function, (&m, name), r),
    ensures
        r matches Ok(f) ==> f.name == name,
        m.functions() is None ==> (r matches Ok(f) && f.raw == 0),
        m.functions() matches Some(t) ==> {
            &&& r matches Ok(f) ==> t.contains((name@, f.raw)) && !name@.contains('\0')
            &&& r is Err ==> name@.contains('\0') || forall|i: int|
                0 <= i < t.len() ==> (#[trigger] t[i]).0 != name@
            &&& r matches Err(e) ==> (e matches RvllmError::Cuda { ctx, .. } && (!name@.contains(
                '\0',
            ) ==> ctx.kernel == name))
        },
{
    if m.functions() is Some {
        lookup_finds_an_entry(m.functions()->0, name@);
    }
}

/// A file becomes a module exactly where it was read, or loaded by the driver from
/// a path without a NUL character; the module holds what the file held.
pub proof fn files_become_modules(
    path: String,
    image: PtxImage,
    r: Result<LoadedModule, RvllmError>,
)
    requires
        call_ensures(LoadedModule::load_from_file, (path, image), r),
    ensures
        r is Ok <==> image is Read || (image is Loaded && !path@.contains('\0')),
        r matches Ok(m) ==> m.file() == path@,
        r matches Ok(m) ==> (image matches PtxImage::Loaded { raw, symbols } ==> m.handle() == raw
            && m.functions() == Some(symbols@)),
        image is Unreadable ==> (r matches Err(RvllmError::Io { path: p }) && p@ == path@),
{
}

} // verus!
