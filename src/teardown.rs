//! The order in which a renderer's objects are released: after the device
//! is idle, each object before anything it depends on is gone.

use vstd::prelude::*;

use crate::buffer::BufferUsage;

verus! {

/// One release step.
#[derive(Clone, Copy, Debug, PartialEq, Eq, Structural)]
pub enum Release {
    /// Wait until the device has finished all submitted work.
    WaitIdle,
    DestroyDescriptorSetLayout,
    DestroyDescriptorPool,
    /// Free the memory bound to the buffer of this usage.
    FreeMemory(BufferUsage),
    DestroyBuffer(BufferUsage),
    DestroySemaphore(usize),
    /// Wait, without limit, for the fence of this slot.
    WaitFence(usize),
    DestroyFence(usize),
    /// Give all command buffers back to the pool.
    FreeCommandBuffers,
    DestroyCommandPool,
    DestroyRenderPass,
    UnconfigureSwapchain,
    DestroyPipeline,
    DestroyPipelineLayout,
}

pub open spec fn head_spec() -> Seq<Release> {
    seq![
        Release::WaitIdle,
        Release::DestroyDescriptorSetLayout,
        Release::DestroyDescriptorPool,
        Release::FreeMemory(BufferUsage::Vertex),
        Release::DestroyBuffer(BufferUsage::Vertex),
        Release::FreeMemory(BufferUsage::Uniform),
        Release::DestroyBuffer(BufferUsage::Uniform),
    ]
}

pub open spec fn semaphores_spec(n: nat) -> Seq<Release> {
    Seq::new(n, |i: int| Release::DestroySemaphore(i as usize))
}

pub open spec fn fences_spec(n: nat) -> Seq<Release> {
    Seq::new(
        2 * n,
        |i: int|
            if i % 2 == 0 {
                Release::WaitFence((i / 2) as usize)
            } else {
                Release::DestroyFence((i / 2) as usize)
            },
    )
}

pub open spec fn tail_spec() -> Seq<Release> {
    seq![
        Release::FreeCommandBuffers,
        Release::DestroyCommandPool,
        Release::DestroyRenderPass,
        Release::UnconfigureSwapchain,
        Release::DestroyPipeline,
        Release::DestroyPipelineLayout,
    ]
}

/// The release order for `n` synchronization slots.
pub open spec fn teardown_spec(n: nat) -> Seq<Release> {
    head_spec() + semaphores_spec(n) + fences_spec(n) + tail_spec()
}

/// The release order for `frames_in_flight` slots: wait for the device, the
/// descriptor set's layout and pool, each buffer's memory then the buffer,
/// the semaphores, each fence after waiting on it, the command buffers then
/// their pool, the render pass, the swapchain, the pipeline then its layout.
pub fn teardown_plan(frames_in_flight: usize) -> (r: Vec<Release>)
    requires
        frames_in_flight <= usize::MAX / 2,
    ensures
        r@ == teardown_spec(frames_in_flight as nat),
{
    let mut r: Vec<Release> = vec![
        Release::WaitIdle,
        Release::DestroyDescriptorSetLayout,
        Release::DestroyDescriptorPool,
        Release::FreeMemory(BufferUsage::Vertex),
        Release::DestroyBuffer(BufferUsage::Vertex),
        Release::FreeMemory(BufferUsage::Uniform),
        Release::DestroyBuffer(BufferUsage::Uniform),
    ];
    proof {
        assert(r@ =~= head_spec());
    }
    let mut i: usize = 0;
    while i < frames_in_flight
        invariant
            i <= frames_in_flight,
            r@ =~= head_spec() + semaphores_spec(i as nat),
        decreases frames_in_flight - i,
    {
        r.push(Release::DestroySemaphore(i));
        i = i + 1;
        proof {
            assert(semaphores_spec(i as nat) =~= semaphores_spec((i - 1) as nat).push(
                Release::DestroySemaphore((i - 1) as usize),
            ));
        }
    }
    let mut j: usize = 0;
    while j < frames_in_flight
        invariant
            j <= frames_in_flight,
            frames_in_flight <= usize::MAX / 2,
            r@ =~= head_spec() + semaphores_spec(frames_in_flight as nat) + fences_spec(j as nat),
        decreases frames_in_flight - j,
    {
        r.push(Release::WaitFence(j));
        r.push(Release::DestroyFence(j));
        proof {
            let prev = fences_spec(j as nat);
            let next = fences_spec((j + 1) as nat);
            assert(next =~= prev.push(Release::WaitFence(j)).push(Release::DestroyFence(j))) by {
                assert forall|k: int| 0 <= k < next.len() implies next[k] == prev.push(
                    Release::WaitFence(j),
                ).push(Release::DestroyFence(j))[k] by {
                    if k < 2 * j {
                    } else if k == 2 * j {
                        assert(k % 2 == 0 && k / 2 == j) by (nonlinear_arith)
                            requires
                                k == 2 * j,
                        ;
                    } else {
                        assert(k % 2 == 1 && k / 2 == j) by (nonlinear_arith)
                            requires
                                k == 2 * j + 1,
                        ;
                    }
                }
            }
        }
        j = j + 1;
    }
    r.push(Release::FreeCommandBuffers);
    r.push(Release::DestroyCommandPool);
    r.push(Release::DestroyRenderPass);
    r.push(Release::UnconfigureSwapchain);
    r.push(Release::DestroyPipeline);
    r.push(Release::DestroyPipelineLayout);
    proof {
        assert(r@ =~= teardown_spec(frames_in_flight as nat));
    }
    r
}

/// The device is idle before anything is released; each fence is waited on
/// right before it is destroyed; each buffer's memory is freed before the
/// buffer is destroyed; command buffers go back before their pool does.
pub proof fn lemma_teardown_order(n: nat)
    ensures
        teardown_spec(n)[0] == Release::WaitIdle,
        forall|i: int|
            0 < i < teardown_spec(n).len() ==> #[trigger] teardown_spec(n)[i] != Release::WaitIdle,
        forall|i: int|
            0 <= i < teardown_spec(n).len() && teardown_spec(n)[i] is DestroyFence ==> i > 0
                && #[trigger] teardown_spec(n)[i - 1] == Release::WaitFence(
                teardown_spec(n)[i]->DestroyFence_0,
            ),
        teardown_spec(n)[3] == Release::FreeMemory(BufferUsage::Vertex),
        teardown_spec(n)[4] == Release::DestroyBuffer(BufferUsage::Vertex),
        teardown_spec(n)[5] == Release::FreeMemory(BufferUsage::Uniform),
        teardown_spec(n)[6] == Release::DestroyBuffer(BufferUsage::Uniform),
        teardown_spec(n)[7 + 3 * n as int] == Release::FreeCommandBuffers,
        teardown_spec(n)[8 + 3 * n as int] == Release::DestroyCommandPool,
{
    let t = teardown_spec(n);
    let h = head_spec();
    let s = semaphores_spec(n);
    let f = fences_spec(n);
    assert(t.len() == 13 + 3 * n);
    assert forall|i: int| 0 < i < t.len() implies #[trigger] t[i] != Release::WaitIdle by {
        if i < 7 {
        } else if i < 7 + n {
            assert(t[i] == s[i - 7]);
        } else if i < 7 + 3 * n {
            assert(t[i] == f[i - 7 - n]);
        } else {
            assert(t[i] == tail_spec()[i - 7 - 3 * n]);
        }
    }
    assert forall|i: int|
        0 <= i < t.len() && t[i] is DestroyFence implies i > 0 && #[trigger] t[i - 1]
            == Release::WaitFence(t[i]->DestroyFence_0) by {
        if i < 7 {
        } else if i < 7 + n {
            assert(t[i] == s[i - 7]);
        } else if i < 7 + 3 * n {
            let k = i - 7 - n;
            assert(t[i] == f[k]);
            assert(k % 2 == 1);
            assert(k >= 1);
            assert(t[i - 1] == f[k - 1]);
            assert((k - 1) % 2 == 0 && (k - 1) / 2 == k / 2) by (nonlinear_arith)
                requires
                    k % 2 == 1,
                    k >= 1,
            ;
        } else {
            assert(t[i] == tail_spec()[i - 7 - 3 * n]);
        }
    }
    assert(t[7 + 3 * n as int] == tail_spec()[0]);
    assert(t[8 + 3 * n as int] == tail_spec()[1]);
}

} // verus!
