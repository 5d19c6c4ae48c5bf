//! The naming rule that says who owns the reference a native call hands out.

use vstd::prelude::*;
use crate::model::Ownership;

verus! {

/// Whether `word` stands in `name` at position `at`.
pub open spec fn stands_at(name: Seq<char>, word: Seq<char>, at: int) -> bool {
    &&& 0 <= at
    &&& at + word.len() <= name.len()
    &&& forall|j: int| 0 <= j < word.len() ==> name[at + j] == word[j]
}

/// Whether `word` stands somewhere in `name`.
pub open spec fn holds_word(name: Seq<char>, word: Seq<char>) -> bool {
    exists|at: int| stands_at(name, word, at)
}

/// The rule: a native call whose name holds `new` or `copy` hands out a reference that the
/// caller owns; every other call hands out one that the native layer keeps.
pub open spec fn ownership_of(name: Seq<char>) -> Ownership {
    if holds_word(name, seq!['n', 'e', 'w']) || holds_word(name, seq!['c', 'o', 'p', 'y']) {
        Ownership::Owned
    } else {
        Ownership::Borrowed
    }
}

/// Whether `word` stands in `name` at position `at`.
fn word_at(name: &str, word: &str, at: usize) -> (yes: bool)
    requires
        at + word@.len() <= name@.len(),
    ensures
        yes == stands_at(name@, word@, at as int),
{
    let length = word.unicode_len();
    let total = name.unicode_len();
    let mut j: usize = 0;
    while j < length
        invariant
            j <= length,
            length == word@.len(),
            total == name@.len(),
            at + word@.len() <= name@.len(),
            forall|k: int| 0 <= k < j ==> name@[at + k] == word@[k],
        decreases length - j,
    {
        if name.get_char(at + j) != word.get_char(j) {
            return false;
        }
        j = j + 1;
    }
    true
}

/// Whether `word` stands somewhere in `name`.
pub fn holds(name: &str, word: &str) -> (yes: bool)
    ensures
        yes == holds_word(name@, word@),
{
    let length = name.unicode_len();
    let width = word.unicode_len();
    if width > length {
        return false;
    }
    let mut at: usize = 0;
    while at <= length - width
        invariant
            at <= length - width + 1,
            width <= length,
            length == name@.len(),
            width == word@.len(),
            forall|k: int| 0 <= k < at ==> !stands_at(name@, word@, k),
        decreases length - width + 1 - at,
    {
        if word_at(name, word, at) {
            return true;
        }
        at = at + 1;
    }
    false
}

/// Who owns the reference that the native call named `name` hands out.
pub fn ownership_of_selector(name: &str) -> (ownership: Ownership)
    ensures
        ownership == ownership_of(name@),
{
    proof {
        reveal_strlit("new");
        reveal_strlit("copy");
    }
    assert("new"@ =~= seq!['n', 'e', 'w']);
    assert("copy"@ =~= seq!['c', 'o', 'p', 'y']);
    if holds(name, "new") || holds(name, "copy") {
        Ownership::Owned
    } else {
        Ownership::Borrowed
    }
}

/// The native calls of this crate whose name holds neither `new` nor `copy`: they hand out
/// a reference that the native layer keeps.
pub proof fn lemma_borrowed_names()
    ensures
        ownership_of("commandBuffer"@) == Ownership::Borrowed,
        ownership_of("commandBufferWithUnretainedReferences"@) == Ownership::Borrowed,
        ownership_of("computeCommandEncoder"@) == Ownership::Borrowed,
        ownership_of("computeCommandEncoderWithDispatchType"@) == Ownership::Borrowed,
        ownership_of("renderCommandEncoderWithDescriptor"@) == Ownership::Borrowed,
        ownership_of("nextDrawable"@) == Ownership::Borrowed,
        ownership_of("texture"@) == Ownership::Borrowed,
        ownership_of("parentTexture"@) == Ownership::Borrowed,
        ownership_of("buffer"@) == Ownership::Borrowed,
        ownership_of("MTLCreateSystemDefaultDevice"@) == Ownership::Borrowed,
        ownership_of("preferredDevice"@) == Ownership::Borrowed,
{
    lemma_borrowed_command_buffer();
    lemma_borrowed_command_buffer_with_unretained_references();
    lemma_borrowed_compute_command_encoder();
    lemma_borrowed_compute_command_encoder_with_dispatch_type();
    lemma_borrowed_render_command_encoder_with_descriptor();
    lemma_borrowed_next_drawable();
    lemma_borrowed_texture();
    lemma_borrowed_parent_texture();
    lemma_borrowed_buffer();
    lemma_borrowed_mtl_create_system_default_device();
    lemma_borrowed_preferred_device();
}

/// The native calls of this crate whose name begins with `new`: they hand out a reference
/// that the caller owns.
pub proof fn lemma_owned_names()
    ensures
        ownership_of("newCommandQueue"@) == Ownership::Owned,
        ownership_of("newCommandQueueWithMaxCommandBufferCount"@) == Ownership::Owned,
        ownership_of("newBufferWithLength"@) == Ownership::Owned,
        ownership_of("newBufferWithBytes"@) == Ownership::Owned,
        ownership_of("newTextureWithDescriptor"@) == Ownership::Owned,
        ownership_of("newSharedTextureWithDescriptor"@) == Ownership::Owned,
        ownership_of("newSharedTextureWithHandle"@) == Ownership::Owned,
        ownership_of("newSamplerStateWithDescriptor"@) == Ownership::Owned,
        ownership_of("newDepthStencilStateWithDescriptor"@) == Ownership::Owned,
        ownership_of("newHeapWithDescriptor"@) == Ownership::Owned,
        ownership_of("newLibraryWithData"@) == Ownership::Owned,
        ownership_of("newLibraryWithSource"@) == Ownership::Owned,
        ownership_of("newLibraryWithFile"@) == Ownership::Owned,
        ownership_of("newFunctionWithName"@) == Ownership::Owned,
        ownership_of("newRenderPipelineStateWithDescriptor"@) == Ownership::Owned,
        ownership_of("newComputePipelineStateWithFunction"@) == Ownership::Owned,
        ownership_of("newComputePipelineStateWithDescriptor"@) == Ownership::Owned,
        ownership_of("newEvent"@) == Ownership::Owned,
        ownership_of("newSharedEvent"@) == Ownership::Owned,
        ownership_of("newSharedEventWithHandle"@) == Ownership::Owned,
        ownership_of("newSharedEventHandle"@) == Ownership::Owned,
        ownership_of("newFence"@) == Ownership::Owned,
        ownership_of("newArgumentEncoderWithArguments"@) == Ownership::Owned,
        ownership_of("newIndirectCommandBufferWithDescriptor"@) == Ownership::Owned,
        ownership_of("newTextureViewWithPixelFormat"@) == Ownership::Owned,
        ownership_of("newSharedTextureHandle"@) == Ownership::Owned,
        ownership_of("newRemoteTextureViewForDevice"@) == Ownership::Owned,
        ownership_of("new"@) == Ownership::Owned,
{
    reveal_strlit("newCommandQueue");
    assert(stands_at("newCommandQueue"@, seq!['n', 'e', 'w'], 0));
    reveal_strlit("newCommandQueueWithMaxCommandBufferCount");
    assert(stands_at("newCommandQueueWithMaxCommandBufferCount"@, seq!['n', 'e', 'w'], 0));
    reveal_strlit("newBufferWithLength");
    assert(stands_at("newBufferWithLength"@, seq!['n', 'e', 'w'], 0));
    reveal_strlit("newBufferWithBytes");
    assert(stands_at("newBufferWithBytes"@, seq!['n', 'e', 'w'], 0));
    reveal_strlit("newTextureWithDescriptor");
    assert(stands_at("newTextureWithDescriptor"@, seq!['n', 'e', 'w'], 0));
    reveal_strlit("newSharedTextureWithDescriptor");
    assert(stands_at("newSharedTextureWithDescriptor"@, seq!['n', 'e', 'w'], 0));
    reveal_strlit("newSharedTextureWithHandle");
    assert(stands_at("newSharedTextureWithHandle"@, seq!['n', 'e', 'w'], 0));
    reveal_strlit("newSamplerStateWithDescriptor");
    assert(stands_at("newSamplerStateWithDescriptor"@, seq!['n', 'e', 'w'], 0));
    reveal_strlit("newDepthStencilStateWithDescriptor");
    assert(stands_at("newDepthStencilStateWithDescriptor"@, seq!['n', 'e', 'w'], 0));
    reveal_strlit("newHeapWithDescriptor");
    assert(stands_at("newHeapWithDescriptor"@, seq!['n', 'e', 'w'], 0));
    reveal_strlit("newLibraryWithData");
    assert(stands_at("newLibraryWithData"@, seq!['n', 'e', 'w'], 0));
    reveal_strlit("newLibraryWithSource");
    assert(stands_at("newLibraryWithSource"@, seq!['n', 'e', 'w'], 0));
    reveal_strlit("newLibraryWithFile");
    assert(stands_at("newLibraryWithFile"@, seq!['n', 'e', 'w'], 0));
    reveal_strlit("newFunctionWithName");
    assert(stands_at("newFunctionWithName"@, seq!['n', 'e', 'w'], 0));
    reveal_strlit("newRenderPipelineStateWithDescriptor");
    assert(stands_at("newRenderPipelineStateWithDescriptor"@, seq!['n', 'e', 'w'], 0));
    reveal_strlit("newComputePipelineStateWithFunction");
    assert(stands_at("newComputePipelineStateWithFunction"@, seq!['n', 'e', 'w'], 0));
    reveal_strlit("newComputePipelineStateWithDescriptor");
    assert(stands_at("newComputePipelineStateWithDescriptor"@, seq!['n', 'e', 'w'], 0));
    reveal_strlit("newEvent");
    assert(stands_at("newEvent"@, seq!['n', 'e', 'w'], 0));
    reveal_strlit("newSharedEvent");
    assert(stands_at("newSharedEvent"@, seq!['n', 'e', 'w'], 0));
    reveal_strlit("newSharedEventWithHandle");
    assert(stands_at("newSharedEventWithHandle"@, seq!['n', 'e', 'w'], 0));
    reveal_strlit("newSharedEventHandle");
    assert(stands_at("newSharedEventHandle"@, seq!['n', 'e', 'w'], 0));
    reveal_strlit("newFence");
    assert(stands_at("newFence"@, seq!['n', 'e', 'w'], 0));
    reveal_strlit("newArgumentEncoderWithArguments");
    assert(stands_at("newArgumentEncoderWithArguments"@, seq!['n', 'e', 'w'], 0));
    reveal_strlit("newIndirectCommandBufferWithDescriptor");
    assert(stands_at("newIndirectCommandBufferWithDescriptor"@, seq!['n', 'e', 'w'], 0));
    reveal_strlit("newTextureViewWithPixelFormat");
    assert(stands_at("newTextureViewWithPixelFormat"@, seq!['n', 'e', 'w'], 0));
    reveal_strlit("newSharedTextureHandle");
    assert(stands_at("newSharedTextureHandle"@, seq!['n', 'e', 'w'], 0));
    reveal_strlit("newRemoteTextureViewForDevice");
    assert(stands_at("newRemoteTextureViewForDevice"@, seq!['n', 'e', 'w'], 0));
    reveal_strlit("new");
    assert(stands_at("new"@, seq!['n', 'e', 'w'], 0));
}

proof fn lemma_borrowed_command_buffer()
    ensures
        ownership_of("commandBuffer"@) == Ownership::Borrowed,
{
    let name = "commandBuffer"@;
    reveal_strlit("commandBuffer");
    assert forall|at: int| !stands_at(name, seq!['n', 'e', 'w'], at) by {
        if stands_at(name, seq!['n', 'e', 'w'], at) {
            assert(name[at + 0] == 'n');
            assert(name[at + 1] == 'e');
            assert(name[at + 2] == 'w');
        }
    }
    assert forall|at: int| !stands_at(name, seq!['c', 'o', 'p', 'y'], at) by {
        if stands_at(name, seq!['c', 'o', 'p', 'y'], at) {
            assert(name[at + 0] == 'c');
            assert(name[at + 1] == 'o');
            assert(name[at + 2] == 'p');
            assert(name[at + 3] == 'y');
        }
    }
}

proof fn lemma_borrowed_command_buffer_with_unretained_references()
    ensures
        ownership_of("commandBufferWithUnretainedReferences"@) == Ownership::Borrowed,
{
    let name = "commandBufferWithUnretainedReferences"@;
    reveal_strlit("commandBufferWithUnretainedReferences");
    assert forall|at: int| !stands_at(name, seq!['n', 'e', 'w'], at) by {
        if stands_at(name, seq!['n', 'e', 'w'], at) {
            assert(name[at + 0] == 'n');
            assert(name[at + 1] == 'e');
            assert(name[at + 2] == 'w');
        }
    }
    assert forall|at: int| !stands_at(name, seq!['c', 'o', 'p', 'y'], at) by {
        if stands_at(name, seq!['c', 'o', 'p', 'y'], at) {
            assert(name[at + 0] == 'c');
            assert(name[at + 1] == 'o');
            assert(name[at + 2] == 'p');
            assert(name[at + 3] == 'y');
        }
    }
}

proof fn lemma_borrowed_compute_command_encoder()
    ensures
        ownership_of("computeCommandEncoder"@) == Ownership::Borrowed,
{
    let name = "computeCommandEncoder"@;
    reveal_strlit("computeCommandEncoder");
    assert forall|at: int| !stands_at(name, seq!['n', 'e', 'w'], at) by {
        if stands_at(name, seq!['n', 'e', 'w'], at) {
            assert(name[at + 0] == 'n');
            assert(name[at + 1] == 'e');
            assert(name[at + 2] == 'w');
        }
    }
    assert forall|at: int| !stands_at(name, seq!['c', 'o', 'p', 'y'], at) by {
        if stands_at(name, seq!['c', 'o', 'p', 'y'], at) {
            assert(name[at + 0] == 'c');
            assert(name[at + 1] == 'o');
            assert(name[at + 2] == 'p');
            assert(name[at + 3] == 'y');
        }
    }
}

proof fn lemma_borrowed_compute_command_encoder_with_dispatch_type()
    ensures
        ownership_of("computeCommandEncoderWithDispatchType"@) == Ownership::Borrowed,
{
    let name = "computeCommandEncoderWithDispatchType"@;
    reveal_strlit("computeCommandEncoderWithDispatchType");
    assert forall|at: int| !stands_at(name, seq!['n', 'e', 'w'], at) by {
        if stands_at(name, seq!['n', 'e', 'w'], at) {
            assert(name[at + 0] == 'n');
            assert(name[at + 1] == 'e');
            assert(name[at + 2] == 'w');
        }
    }
    assert forall|at: int| !stands_at(name, seq!['c', 'o', 'p', 'y'], at) by {
        if stands_at(name, seq!['c', 'o', 'p', 'y'], at) {
            assert(name[at + 0] == 'c');
            assert(name[at + 1] == 'o');
            assert(name[at + 2] == 'p');
            assert(name[at + 3] == 'y');
        }
    }
}

proof fn lemma_borrowed_render_command_encoder_with_descriptor()
    ensures
        ownership_of("renderCommandEncoderWithDescriptor"@) == Ownership::Borrowed,
{
    let name = "renderCommandEncoderWithDescriptor"@;
    reveal_strlit("renderCommandEncoderWithDescriptor");
    assert forall|at: int| !stands_at(name, seq!['n', 'e', 'w'], at) by {
        if stands_at(name, seq!['n', 'e', 'w'], at) {
            assert(name[at + 0] == 'n');
            assert(name[at + 1] == 'e');
            assert(name[at + 2] == 'w');
        }
    }
    assert forall|at: int| !stands_at(name, seq!['c', 'o', 'p', 'y'], at) by {
        if stands_at(name, seq!['c', 'o', 'p', 'y'], at) {
            assert(name[at + 0] == 'c');
            assert(name[at + 1] == 'o');
            assert(name[at + 2] == 'p');
            assert(name[at + 3] == 'y');
        }
    }
}

proof fn lemma_borrowed_next_drawable()
    ensures
        ownership_of("nextDrawable"@) == Ownership::Borrowed,
{
    let name = "nextDrawable"@;
    reveal_strlit("nextDrawable");
    assert forall|at: int| !stands_at(name, seq!['n', 'e', 'w'], at) by {
        if stands_at(name, seq!['n', 'e', 'w'], at) {
            assert(name[at + 0] == 'n');
            assert(name[at + 1] == 'e');
            assert(name[at + 2] == 'w');
        }
    }
    assert forall|at: int| !stands_at(name, seq!['c', 'o', 'p', 'y'], at) by {
        if stands_at(name, seq!['c', 'o', 'p', 'y'], at) {
            assert(name[at + 0] == 'c');
            assert(name[at + 1] == 'o');
            assert(name[at + 2] == 'p');
            assert(name[at + 3] == 'y');
        }
    }
}

proof fn lemma_borrowed_texture()
    ensures
        ownership_of("texture"@) == Ownership::Borrowed,
{
    let name = "texture"@;
    reveal_strlit("texture");
    assert forall|at: int| !stands_at(name, seq!['n', 'e', 'w'], at) by {
        if stands_at(name, seq!['n', 'e', 'w'], at) {
            assert(name[at + 0] == 'n');
            assert(name[at + 1] == 'e');
            assert(name[at + 2] == 'w');
        }
    }
    assert forall|at: int| !stands_at(name, seq!['c', 'o', 'p', 'y'], at) by {
        if stands_at(name, seq!['c', 'o', 'p', 'y'], at) {
            assert(name[at + 0] == 'c');
            assert(name[at + 1] == 'o');
            assert(name[at + 2] == 'p');
            assert(name[at + 3] == 'y');
        }
    }
}

proof fn lemma_borrowed_parent_texture()
    ensures
        ownership_of("parentTexture"@) == Ownership::Borrowed,
{
    let name = "parentTexture"@;
    reveal_strlit("parentTexture");
    assert forall|at: int| !stands_at(name, seq!['n', 'e', 'w'], at) by {
        if stands_at(name, seq!['n', 'e', 'w'], at) {
            assert(name[at + 0] == 'n');
            assert(name[at + 1] == 'e');
            assert(name[at + 2] == 'w');
        }
    }
    assert forall|at: int| !stands_at(name, seq!['c', 'o', 'p', 'y'], at) by {
        if stands_at(name, seq!['c', 'o', 'p', 'y'], at) {
            assert(name[at + 0] == 'c');
            assert(name[at + 1] == 'o');
            assert(name[at + 2] == 'p');
            assert(name[at + 3] == 'y');
        }
    }
}

proof fn lemma_borrowed_buffer()
    ensures
        ownership_of("buffer"@) == Ownership::Borrowed,
{
    let name = "buffer"@;
    reveal_strlit("buffer");
    assert forall|at: int| !stands_at(name, seq!['n', 'e', 'w'], at) by {
        if stands_at(name, seq!['n', 'e', 'w'], at) {
            assert(name[at + 0] == 'n');
            assert(name[at + 1] == 'e');
            assert(name[at + 2] == 'w');
        }
    }
    assert forall|at: int| !stands_at(name, seq!['c', 'o', 'p', 'y'], at) by {
        if stands_at(name, seq!['c', 'o', 'p', 'y'], at) {
            assert(name[at + 0] == 'c');
            assert(name[at + 1] == 'o');
            assert(name[at + 2] == 'p');
            assert(name[at + 3] == 'y');
        }
    }
}

proof fn lemma_borrowed_mtl_create_system_default_device()
    ensures
        ownership_of("MTLCreateSystemDefaultDevice"@) == Ownership::Borrowed,
{
    let name = "MTLCreateSystemDefaultDevice"@;
    reveal_strlit("MTLCreateSystemDefaultDevice");
    assert forall|at: int| !stands_at(name, seq!['n', 'e', 'w'], at) by {
        if stands_at(name, seq!['n', 'e', 'w'], at) {
            assert(name[at + 0] == 'n');
            assert(name[at + 1] == 'e');
            assert(name[at + 2] == 'w');
        }
    }
    assert forall|at: int| !stands_at(name, seq!['c', 'o', 'p', 'y'], at) by {
        if stands_at(name, seq!['c', 'o', 'p', 'y'], at) {
            assert(name[at + 0] == 'c');
            assert(name[at + 1] == 'o');
            assert(name[at + 2] == 'p');
            assert(name[at + 3] == 'y');
        }
    }
}

proof fn lemma_borrowed_preferred_device()
    ensures
        ownership_of("preferredDevice"@) == Ownership::Borrowed,
{
    let name = "preferredDevice"@;
    reveal_strlit("preferredDevice");
    assert forall|at: int| !stands_at(name, seq!['n', 'e', 'w'], at) by {
        if stands_at(name, seq!['n', 'e', 'w'], at) {
            assert(name[at + 0] == 'n');
            assert(name[at + 1] == 'e');
            assert(name[at + 2] == 'w');
        }
    }
    assert forall|at: int| !stands_at(name, seq!['c', 'o', 'p', 'y'], at) by {
        if stands_at(name, seq!['c', 'o', 'p', 'y'], at) {
            assert(name[at + 0] == 'c');
            assert(name[at + 1] == 'o');
            assert(name[at + 2] == 'p');
            assert(name[at + 3] == 'y');
        }
    }
}

} // verus!
