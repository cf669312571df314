//! The status codes that the native compute API reports, and their symbolic names.

use vstd::prelude::*;

verus! {

/// A status code of the native compute API: `CL_SUCCESS` or one of its failures.
#[allow(non_camel_case_types)]
#[derive(Debug, Clone, Copy, PartialEq, Eq, Structural)]
pub enum Status {
    CL_SUCCESS,
    CL_DEVICE_NOT_FOUND,
    CL_DEVICE_NOT_AVAILABLE,
    CL_COMPILER_NOT_AVAILABLE,
    CL_MEM_OBJECT_ALLOCATION_FAILURE,
    CL_OUT_OF_RESOURCES,
    CL_OUT_OF_HOST_MEMORY,
    CL_PROFILING_INFO_NOT_AVAILABLE,
    CL_MEM_COPY_OVERLAP,
    CL_IMAGE_FORMAT_MISMATCH,
    CL_IMAGE_FORMAT_NOT_SUPPORTED,
    CL_BUILD_PROGRAM_FAILURE,
    CL_MAP_FAILURE,
    CL_MISALIGNED_SUB_BUFFER_OFFSET,
    CL_EXEC_STATUS_ERROR_FOR_EVENTS_IN_WAIT_LIST,
    CL_COMPILE_PROGRAM_FAILURE,
    CL_LINKER_NOT_AVAILABLE,
    CL_LINK_PROGRAM_FAILURE,
    CL_DEVICE_PARTITION_FAILED,
    CL_KERNEL_ARG_INFO_NOT_AVAILABLE,
    CL_INVALID_VALUE,
    CL_INVALID_DEVICE_TYPE,
    CL_INVALID_PLATFORM,
    CL_INVALID_DEVICE,
    CL_INVALID_CONTEXT,
    CL_INVALID_QUEUE_PROPERTIES,
    CL_INVALID_COMMAND_QUEUE,
    CL_INVALID_HOST_PTR,
    CL_INVALID_MEM_OBJECT,
    CL_INVALID_IMAGE_FORMAT_DESCRIPTOR,
    CL_INVALID_IMAGE_SIZE,
    CL_INVALID_SAMPLER,
    CL_INVALID_BINARY,
    CL_INVALID_BUILD_OPTIONS,
    CL_INVALID_PROGRAM,
    CL_INVALID_PROGRAM_EXECUTABLE,
    CL_INVALID_KERNEL_NAME,
    CL_INVALID_KERNEL_DEFINITION,
    CL_INVALID_KERNEL,
    CL_INVALID_ARG_INDEX,
    CL_INVALID_ARG_VALUE,
    CL_INVALID_ARG_SIZE,
    CL_INVALID_KERNEL_ARGS,
    CL_INVALID_WORK_DIMENSION,
    CL_INVALID_WORK_GROUP_SIZE,
    CL_INVALID_WORK_ITEM_SIZE,
    CL_INVALID_GLOBAL_OFFSET,
    CL_INVALID_EVENT_WAIT_LIST,
    CL_INVALID_EVENT,
    CL_INVALID_OPERATION,
    CL_INVALID_GL_OBJECT,
    CL_INVALID_BUFFER_SIZE,
    CL_INVALID_MIP_LEVEL,
    CL_INVALID_GLOBAL_WORK_SIZE,
    CL_INVALID_PROPERTY,
    CL_INVALID_IMAGE_DESCRIPTOR,
    CL_INVALID_COMPILER_OPTIONS,
    CL_INVALID_LINKER_OPTIONS,
    CL_INVALID_DEVICE_PARTITION_COUNT,
    CL_INVALID_PIPE_SIZE,
    CL_INVALID_DEVICE_QUEUE,
    CL_PLATFORM_NOT_FOUND_KHR,
}

/// The raw integer value of a status.
pub open spec fn code_of(s: Status) -> i32 {
    match s {
        Status::CL_SUCCESS => 0i32,
        Status::CL_DEVICE_NOT_FOUND => -1i32,
        Status::CL_DEVICE_NOT_AVAILABLE => -2i32,
        Status::CL_COMPILER_NOT_AVAILABLE => -3i32,
        Status::CL_MEM_OBJECT_ALLOCATION_FAILURE => -4i32,
        Status::CL_OUT_OF_RESOURCES => -5i32,
        Status::CL_OUT_OF_HOST_MEMORY => -6i32,
        Status::CL_PROFILING_INFO_NOT_AVAILABLE => -7i32,
        Status::CL_MEM_COPY_OVERLAP => -8i32,
        Status::CL_IMAGE_FORMAT_MISMATCH => -9i32,
        Status::CL_IMAGE_FORMAT_NOT_SUPPORTED => -10i32,
        Status::CL_BUILD_PROGRAM_FAILURE => -11i32,
        Status::CL_MAP_FAILURE => -12i32,
        Status::CL_MISALIGNED_SUB_BUFFER_OFFSET => -13i32,
        Status::CL_EXEC_STATUS_ERROR_FOR_EVENTS_IN_WAIT_LIST => -14i32,
        Status::CL_COMPILE_PROGRAM_FAILURE => -15i32,
        Status::CL_LINKER_NOT_AVAILABLE => -16i32,
        Status::CL_LINK_PROGRAM_FAILURE => -17i32,
        Status::CL_DEVICE_PARTITION_FAILED => -18i32,
        Status::CL_KERNEL_ARG_INFO_NOT_AVAILABLE => -19i32,
        Status::CL_INVALID_VALUE => -30i32,
        Status::CL_INVALID_DEVICE_TYPE => -31i32,
        Status::CL_INVALID_PLATFORM => -32i32,
        Status::CL_INVALID_DEVICE => -33i32,
        Status::CL_INVALID_CONTEXT => -34i32,
        Status::CL_INVALID_QUEUE_PROPERTIES => -35i32,
        Status::CL_INVALID_COMMAND_QUEUE => -36i32,
        Status::CL_INVALID_HOST_PTR => -37i32,
        Status::CL_INVALID_MEM_OBJECT => -38i32,
        Status::CL_INVALID_IMAGE_FORMAT_DESCRIPTOR => -39i32,
        Status::CL_INVALID_IMAGE_SIZE => -40i32,
        Status::CL_INVALID_SAMPLER => -41i32,
        Status::CL_INVALID_BINARY => -42i32,
        Status::CL_INVALID_BUILD_OPTIONS => -43i32,
        Status::CL_INVALID_PROGRAM => -44i32,
        Status::CL_INVALID_PROGRAM_EXECUTABLE => -45i32,
        Status::CL_INVALID_KERNEL_NAME => -46i32,
        Status::CL_INVALID_KERNEL_DEFINITION => -47i32,
        Status::CL_INVALID_KERNEL => -48i32,
        Status::CL_INVALID_ARG_INDEX => -49i32,
        Status::CL_INVALID_ARG_VALUE => -50i32,
        Status::CL_INVALID_ARG_SIZE => -51i32,
        Status::CL_INVALID_KERNEL_ARGS => -52i32,
        Status::CL_INVALID_WORK_DIMENSION => -53i32,
        Status::CL_INVALID_WORK_GROUP_SIZE => -54i32,
        Status::CL_INVALID_WORK_ITEM_SIZE => -55i32,
        Status::CL_INVALID_GLOBAL_OFFSET => -56i32,
        Status::CL_INVALID_EVENT_WAIT_LIST => -57i32,
        Status::CL_INVALID_EVENT => -58i32,
        Status::CL_INVALID_OPERATION => -59i32,
        Status::CL_INVALID_GL_OBJECT => -60i32,
        Status::CL_INVALID_BUFFER_SIZE => -61i32,
        Status::CL_INVALID_MIP_LEVEL => -62i32,
        Status::CL_INVALID_GLOBAL_WORK_SIZE => -63i32,
        Status::CL_INVALID_PROPERTY => -64i32,
        Status::CL_INVALID_IMAGE_DESCRIPTOR => -65i32,
        Status::CL_INVALID_COMPILER_OPTIONS => -66i32,
        Status::CL_INVALID_LINKER_OPTIONS => -67i32,
        Status::CL_INVALID_DEVICE_PARTITION_COUNT => -68i32,
        Status::CL_INVALID_PIPE_SIZE => -69i32,
        Status::CL_INVALID_DEVICE_QUEUE => -70i32,
        Status::CL_PLATFORM_NOT_FOUND_KHR => -1001i32,
    }
}

/// The status whose raw value is `code`, if the API defines one.
pub open spec fn status_of(code: i32) -> Option<Status> {
    match code {
        0i32 => Some(Status::CL_SUCCESS),
        -1i32 => Some(Status::CL_DEVICE_NOT_FOUND),
        -2i32 => Some(Status::CL_DEVICE_NOT_AVAILABLE),
        -3i32 => Some(Status::CL_COMPILER_NOT_AVAILABLE),
        -4i32 => Some(Status::CL_MEM_OBJECT_ALLOCATION_FAILURE),
        -5i32 => Some(Status::CL_OUT_OF_RESOURCES),
        -6i32 => Some(Status::CL_OUT_OF_HOST_MEMORY),
        -7i32 => Some(Status::CL_PROFILING_INFO_NOT_AVAILABLE),
        -8i32 => Some(Status::CL_MEM_COPY_OVERLAP),
        -9i32 => Some(Status::CL_IMAGE_FORMAT_MISMATCH),
        -10i32 => Some(Status::CL_IMAGE_FORMAT_NOT_SUPPORTED),
        -11i32 => Some(Status::CL_BUILD_PROGRAM_FAILURE),
        -12i32 => Some(Status::CL_MAP_FAILURE),
        -13i32 => Some(Status::CL_MISALIGNED_SUB_BUFFER_OFFSET),
        -14i32 => Some(Status::CL_EXEC_STATUS_ERROR_FOR_EVENTS_IN_WAIT_LIST),
        -15i32 => Some(Status::CL_COMPILE_PROGRAM_FAILURE),
        -16i32 => Some(Status::CL_LINKER_NOT_AVAILABLE),
        -17i32 => Some(Status::CL_LINK_PROGRAM_FAILURE),
        -18i32 => Some(Status::CL_DEVICE_PARTITION_FAILED),
        -19i32 => Some(Status::CL_KERNEL_ARG_INFO_NOT_AVAILABLE),
        -30i32 => Some(Status::CL_INVALID_VALUE),
        -31i32 => Some(Status::CL_INVALID_DEVICE_TYPE),
        -32i32 => Some(Status::CL_INVALID_PLATFORM),
        -33i32 => Some(Status::CL_INVALID_DEVICE),
        -34i32 => Some(Status::CL_INVALID_CONTEXT),
        -35i32 => Some(Status::CL_INVALID_QUEUE_PROPERTIES),
        -36i32 => Some(Status::CL_INVALID_COMMAND_QUEUE),
        -37i32 => Some(Status::CL_INVALID_HOST_PTR),
        -38i32 => Some(Status::CL_INVALID_MEM_OBJECT),
        -39i32 => Some(Status::CL_INVALID_IMAGE_FORMAT_DESCRIPTOR),
        -40i32 => Some(Status::CL_INVALID_IMAGE_SIZE),
        -41i32 => Some(Status::CL_INVALID_SAMPLER),
        -42i32 => Some(Status::CL_INVALID_BINARY),
        -43i32 => Some(Status::CL_INVALID_BUILD_OPTIONS),
        -44i32 => Some(Status::CL_INVALID_PROGRAM),
        -45i32 => Some(Status::CL_INVALID_PROGRAM_EXECUTABLE),
        -46i32 => Some(Status::CL_INVALID_KERNEL_NAME),
        -47i32 => Some(Status::CL_INVALID_KERNEL_DEFINITION),
        -48i32 => Some(Status::CL_INVALID_KERNEL),
        -49i32 => Some(Status::CL_INVALID_ARG_INDEX),
        -50i32 => Some(Status::CL_INVALID_ARG_VALUE),
        -51i32 => Some(Status::CL_INVALID_ARG_SIZE),
        -52i32 => Some(Status::CL_INVALID_KERNEL_ARGS),
        -53i32 => Some(Status::CL_INVALID_WORK_DIMENSION),
        -54i32 => Some(Status::CL_INVALID_WORK_GROUP_SIZE),
        -55i32 => Some(Status::CL_INVALID_WORK_ITEM_SIZE),
        -56i32 => Some(Status::CL_INVALID_GLOBAL_OFFSET),
        -57i32 => Some(Status::CL_INVALID_EVENT_WAIT_LIST),
        -58i32 => Some(Status::CL_INVALID_EVENT),
        -59i32 => Some(Status::CL_INVALID_OPERATION),
        -60i32 => Some(Status::CL_INVALID_GL_OBJECT),
        -61i32 => Some(Status::CL_INVALID_BUFFER_SIZE),
        -62i32 => Some(Status::CL_INVALID_MIP_LEVEL),
        -63i32 => Some(Status::CL_INVALID_GLOBAL_WORK_SIZE),
        -64i32 => Some(Status::CL_INVALID_PROPERTY),
        -65i32 => Some(Status::CL_INVALID_IMAGE_DESCRIPTOR),
        -66i32 => Some(Status::CL_INVALID_COMPILER_OPTIONS),
        -67i32 => Some(Status::CL_INVALID_LINKER_OPTIONS),
        -68i32 => Some(Status::CL_INVALID_DEVICE_PARTITION_COUNT),
        -69i32 => Some(Status::CL_INVALID_PIPE_SIZE),
        -70i32 => Some(Status::CL_INVALID_DEVICE_QUEUE),
        -1001i32 => Some(Status::CL_PLATFORM_NOT_FOUND_KHR),
        _ => None,
    }
}

/// Whether the API defines a status with raw value `code`.
pub open spec fn is_known_code(code: i32) -> bool {
    status_of(code) is Some
}

/// The symbolic name of a status, as the API's headers spell it.
pub open spec fn name_of(s: Status) -> Seq<char> {
    match s {
        Status::CL_SUCCESS => "CL_SUCCESS"@,
        Status::CL_DEVICE_NOT_FOUND => "CL_DEVICE_NOT_FOUND"@,
        Status::CL_DEVICE_NOT_AVAILABLE => "CL_DEVICE_NOT_AVAILABLE"@,
        Status::CL_COMPILER_NOT_AVAILABLE => "CL_COMPILER_NOT_AVAILABLE"@,
        Status::CL_MEM_OBJECT_ALLOCATION_FAILURE => "CL_MEM_OBJECT_ALLOCATION_FAILURE"@,
        Status::CL_OUT_OF_RESOURCES => "CL_OUT_OF_RESOURCES"@,
        Status::CL_OUT_OF_HOST_MEMORY => "CL_OUT_OF_HOST_MEMORY"@,
        Status::CL_PROFILING_INFO_NOT_AVAILABLE => "CL_PROFILING_INFO_NOT_AVAILABLE"@,
        Status::CL_MEM_COPY_OVERLAP => "CL_MEM_COPY_OVERLAP"@,
        Status::CL_IMAGE_FORMAT_MISMATCH => "CL_IMAGE_FORMAT_MISMATCH"@,
        Status::CL_IMAGE_FORMAT_NOT_SUPPORTED => "CL_IMAGE_FORMAT_NOT_SUPPORTED"@,
        Status::CL_BUILD_PROGRAM_FAILURE => "CL_BUILD_PROGRAM_FAILURE"@,
        Status::CL_MAP_FAILURE => "CL_MAP_FAILURE"@,
        Status::CL_MISALIGNED_SUB_BUFFER_OFFSET => "CL_MISALIGNED_SUB_BUFFER_OFFSET"@,
        Status::CL_EXEC_STATUS_ERROR_FOR_EVENTS_IN_WAIT_LIST => "CL_EXEC_STATUS_ERROR_FOR_EVENTS_IN_WAIT_LIST"@,
        Status::CL_COMPILE_PROGRAM_FAILURE => "CL_COMPILE_PROGRAM_FAILURE"@,
        Status::CL_LINKER_NOT_AVAILABLE => "CL_LINKER_NOT_AVAILABLE"@,
        Status::CL_LINK_PROGRAM_FAILURE => "CL_LINK_PROGRAM_FAILURE"@,
        Status::CL_DEVICE_PARTITION_FAILED => "CL_DEVICE_PARTITION_FAILED"@,
        Status::CL_KERNEL_ARG_INFO_NOT_AVAILABLE => "CL_KERNEL_ARG_INFO_NOT_AVAILABLE"@,
        Status::CL_INVALID_VALUE => "CL_INVALID_VALUE"@,
        Status::CL_INVALID_DEVICE_TYPE => "CL_INVALID_DEVICE_TYPE"@,
        Status::CL_INVALID_PLATFORM => "CL_INVALID_PLATFORM"@,
        Status::CL_INVALID_DEVICE => "CL_INVALID_DEVICE"@,
        Status::CL_INVALID_CONTEXT => "CL_INVALID_CONTEXT"@,
        Status::CL_INVALID_QUEUE_PROPERTIES => "CL_INVALID_QUEUE_PROPERTIES"@,
        Status::CL_INVALID_COMMAND_QUEUE => "CL_INVALID_COMMAND_QUEUE"@,
        Status::CL_INVALID_HOST_PTR => "CL_INVALID_HOST_PTR"@,
        Status::CL_INVALID_MEM_OBJECT => "CL_INVALID_MEM_OBJECT"@,
        Status::CL_INVALID_IMAGE_FORMAT_DESCRIPTOR => "CL_INVALID_IMAGE_FORMAT_DESCRIPTOR"@,
        Status::CL_INVALID_IMAGE_SIZE => "CL_INVALID_IMAGE_SIZE"@,
        Status::CL_INVALID_SAMPLER => "CL_INVALID_SAMPLER"@,
        Status::CL_INVALID_BINARY => "CL_INVALID_BINARY"@,
        Status::CL_INVALID_BUILD_OPTIONS => "CL_INVALID_BUILD_OPTIONS"@,
        Status::CL_INVALID_PROGRAM => "CL_INVALID_PROGRAM"@,
        Status::CL_INVALID_PROGRAM_EXECUTABLE => "CL_INVALID_PROGRAM_EXECUTABLE"@,
        Status::CL_INVALID_KERNEL_NAME => "CL_INVALID_KERNEL_NAME"@,
        Status::CL_INVALID_KERNEL_DEFINITION => "CL_INVALID_KERNEL_DEFINITION"@,
        Status::CL_INVALID_KERNEL => "CL_INVALID_KERNEL"@,
        Status::CL_INVALID_ARG_INDEX => "CL_INVALID_ARG_INDEX"@,
        Status::CL_INVALID_ARG_VALUE => "CL_INVALID_ARG_VALUE"@,
        Status::CL_INVALID_ARG_SIZE => "CL_INVALID_ARG_SIZE"@,
        Status::CL_INVALID_KERNEL_ARGS => "CL_INVALID_KERNEL_ARGS"@,
        Status::CL_INVALID_WORK_DIMENSION => "CL_INVALID_WORK_DIMENSION"@,
        Status::CL_INVALID_WORK_GROUP_SIZE => "CL_INVALID_WORK_GROUP_SIZE"@,
        Status::CL_INVALID_WORK_ITEM_SIZE => "CL_INVALID_WORK_ITEM_SIZE"@,
        Status::CL_INVALID_GLOBAL_OFFSET => "CL_INVALID_GLOBAL_OFFSET"@,
        Status::CL_INVALID_EVENT_WAIT_LIST => "CL_INVALID_EVENT_WAIT_LIST"@,
        Status::CL_INVALID_EVENT => "CL_INVALID_EVENT"@,
        Status::CL_INVALID_OPERATION => "CL_INVALID_OPERATION"@,
        Status::CL_INVALID_GL_OBJECT => "CL_INVALID_GL_OBJECT"@,
        Status::CL_INVALID_BUFFER_SIZE => "CL_INVALID_BUFFER_SIZE"@,
        Status::CL_INVALID_MIP_LEVEL => "CL_INVALID_MIP_LEVEL"@,
        Status::CL_INVALID_GLOBAL_WORK_SIZE => "CL_INVALID_GLOBAL_WORK_SIZE"@,
        Status::CL_INVALID_PROPERTY => "CL_INVALID_PROPERTY"@,
        Status::CL_INVALID_IMAGE_DESCRIPTOR => "CL_INVALID_IMAGE_DESCRIPTOR"@,
        Status::CL_INVALID_COMPILER_OPTIONS => "CL_INVALID_COMPILER_OPTIONS"@,
        Status::CL_INVALID_LINKER_OPTIONS => "CL_INVALID_LINKER_OPTIONS"@,
        Status::CL_INVALID_DEVICE_PARTITION_COUNT => "CL_INVALID_DEVICE_PARTITION_COUNT"@,
        Status::CL_INVALID_PIPE_SIZE => "CL_INVALID_PIPE_SIZE"@,
        Status::CL_INVALID_DEVICE_QUEUE => "CL_INVALID_DEVICE_QUEUE"@,
        Status::CL_PLATFORM_NOT_FOUND_KHR => "CL_PLATFORM_NOT_FOUND_KHR"@,
    }
}

impl Status {
    /// Looks up the status with raw value `code`.
    pub fn from_i32(code: i32) -> (r: Option<Status>)
        ensures
            r == status_of(code),
    {
        match code {
            0i32 => Some(Status::CL_SUCCESS),
            -1i32 => Some(Status::CL_DEVICE_NOT_FOUND),
            -2i32 => Some(Status::CL_DEVICE_NOT_AVAILABLE),
            -3i32 => Some(Status::CL_COMPILER_NOT_AVAILABLE),
            -4i32 => Some(Status::CL_MEM_OBJECT_ALLOCATION_FAILURE),
            -5i32 => Some(Status::CL_OUT_OF_RESOURCES),
            -6i32 => Some(Status::CL_OUT_OF_HOST_MEMORY),
            -7i32 => Some(Status::CL_PROFILING_INFO_NOT_AVAILABLE),
            -8i32 => Some(Status::CL_MEM_COPY_OVERLAP),
            -9i32 => Some(Status::CL_IMAGE_FORMAT_MISMATCH),
            -10i32 => Some(Status::CL_IMAGE_FORMAT_NOT_SUPPORTED),
            -11i32 => Some(Status::CL_BUILD_PROGRAM_FAILURE),
            -12i32 => Some(Status::CL_MAP_FAILURE),
            -13i32 => Some(Status::CL_MISALIGNED_SUB_BUFFER_OFFSET),
            -14i32 => Some(Status::CL_EXEC_STATUS_ERROR_FOR_EVENTS_IN_WAIT_LIST),
            -15i32 => Some(Status::CL_COMPILE_PROGRAM_FAILURE),
            -16i32 => Some(Status::CL_LINKER_NOT_AVAILABLE),
            -17i32 => Some(Status::CL_LINK_PROGRAM_FAILURE),
            -18i32 => Some(Status::CL_DEVICE_PARTITION_FAILED),
            -19i32 => Some(Status::CL_KERNEL_ARG_INFO_NOT_AVAILABLE),
            -30i32 => Some(Status::CL_INVALID_VALUE),
            -31i32 => Some(Status::CL_INVALID_DEVICE_TYPE),
            -32i32 => Some(Status::CL_INVALID_PLATFORM),
            -33i32 => Some(Status::CL_INVALID_DEVICE),
            -34i32 => Some(Status::CL_INVALID_CONTEXT),
            -35i32 => Some(Status::CL_INVALID_QUEUE_PROPERTIES),
            -36i32 => Some(Status::CL_INVALID_COMMAND_QUEUE),
            -37i32 => Some(Status::CL_INVALID_HOST_PTR),
            -38i32 => Some(Status::CL_INVALID_MEM_OBJECT),
            -39i32 => Some(Status::CL_INVALID_IMAGE_FORMAT_DESCRIPTOR),
            -40i32 => Some(Status::CL_INVALID_IMAGE_SIZE),
            -41i32 => Some(Status::CL_INVALID_SAMPLER),
            -42i32 => Some(Status::CL_INVALID_BINARY),
            -43i32 => Some(Status::CL_INVALID_BUILD_OPTIONS),
            -44i32 => Some(Status::CL_INVALID_PROGRAM),
            -45i32 => Some(Status::CL_INVALID_PROGRAM_EXECUTABLE),
            -46i32 => Some(Status::CL_INVALID_KERNEL_NAME),
            -47i32 => Some(Status::CL_INVALID_KERNEL_DEFINITION),
            -48i32 => Some(Status::CL_INVALID_KERNEL),
            -49i32 => Some(Status::CL_INVALID_ARG_INDEX),
            -50i32 => Some(Status::CL_INVALID_ARG_VALUE),
            -51i32 => Some(Status::CL_INVALID_ARG_SIZE),
            -52i32 => Some(Status::CL_INVALID_KERNEL_ARGS),
            -53i32 => Some(Status::CL_INVALID_WORK_DIMENSION),
            -54i32 => Some(Status::CL_INVALID_WORK_GROUP_SIZE),
            -55i32 => Some(Status::CL_INVALID_WORK_ITEM_SIZE),
            -56i32 => Some(Status::CL_INVALID_GLOBAL_OFFSET),
            -57i32 => Some(Status::CL_INVALID_EVENT_WAIT_LIST),
            -58i32 => Some(Status::CL_INVALID_EVENT),
            -59i32 => Some(Status::CL_INVALID_OPERATION),
            -60i32 => Some(Status::CL_INVALID_GL_OBJECT),
            -61i32 => Some(Status::CL_INVALID_BUFFER_SIZE),
            -62i32 => Some(Status::CL_INVALID_MIP_LEVEL),
            -63i32 => Some(Status::CL_INVALID_GLOBAL_WORK_SIZE),
            -64i32 => Some(Status::CL_INVALID_PROPERTY),
            -65i32 => Some(Status::CL_INVALID_IMAGE_DESCRIPTOR),
            -66i32 => Some(Status::CL_INVALID_COMPILER_OPTIONS),
            -67i32 => Some(Status::CL_INVALID_LINKER_OPTIONS),
            -68i32 => Some(Status::CL_INVALID_DEVICE_PARTITION_COUNT),
            -69i32 => Some(Status::CL_INVALID_PIPE_SIZE),
            -70i32 => Some(Status::CL_INVALID_DEVICE_QUEUE),
            -1001i32 => Some(Status::CL_PLATFORM_NOT_FOUND_KHR),
            _ => None,
        }
    }

    /// The raw integer value of this status.
    pub fn as_i32(&self) -> (r: i32)
        ensures
            r == code_of(*self),
    {
        match self {
            Status::CL_SUCCESS => 0i32,
            Status::CL_DEVICE_NOT_FOUND => -1i32,
            Status::CL_DEVICE_NOT_AVAILABLE => -2i32,
            Status::CL_COMPILER_NOT_AVAILABLE => -3i32,
            Status::CL_MEM_OBJECT_ALLOCATION_FAILURE => -4i32,
            Status::CL_OUT_OF_RESOURCES => -5i32,
            Status::CL_OUT_OF_HOST_MEMORY => -6i32,
            Status::CL_PROFILING_INFO_NOT_AVAILABLE => -7i32,
            Status::CL_MEM_COPY_OVERLAP => -8i32,
            Status::CL_IMAGE_FORMAT_MISMATCH => -9i32,
            Status::CL_IMAGE_FORMAT_NOT_SUPPORTED => -10i32,
            Status::CL_BUILD_PROGRAM_FAILURE => -11i32,
            Status::CL_MAP_FAILURE => -12i32,
            Status::CL_MISALIGNED_SUB_BUFFER_OFFSET => -13i32,
            Status::CL_EXEC_STATUS_ERROR_FOR_EVENTS_IN_WAIT_LIST => -14i32,
            Status::CL_COMPILE_PROGRAM_FAILURE => -15i32,
            Status::CL_LINKER_NOT_AVAILABLE => -16i32,
            Status::CL_LINK_PROGRAM_FAILURE => -17i32,
            Status::CL_DEVICE_PARTITION_FAILED => -18i32,
            Status::CL_KERNEL_ARG_INFO_NOT_AVAILABLE => -19i32,
            Status::CL_INVALID_VALUE => -30i32,
            Status::CL_INVALID_DEVICE_TYPE => -31i32,
            Status::CL_INVALID_PLATFORM => -32i32,
            Status::CL_INVALID_DEVICE => -33i32,
            Status::CL_INVALID_CONTEXT => -34i32,
            Status::CL_INVALID_QUEUE_PROPERTIES => -35i32,
            Status::CL_INVALID_COMMAND_QUEUE => -36i32,
            Status::CL_INVALID_HOST_PTR => -37i32,
            Status::CL_INVALID_MEM_OBJECT => -38i32,
            Status::CL_INVALID_IMAGE_FORMAT_DESCRIPTOR => -39i32,
            Status::CL_INVALID_IMAGE_SIZE => -40i32,
            Status::CL_INVALID_SAMPLER => -41i32,
            Status::CL_INVALID_BINARY => -42i32,
            Status::CL_INVALID_BUILD_OPTIONS => -43i32,
            Status::CL_INVALID_PROGRAM => -44i32,
            Status::CL_INVALID_PROGRAM_EXECUTABLE => -45i32,
            Status::CL_INVALID_KERNEL_NAME => -46i32,
            Status::CL_INVALID_KERNEL_DEFINITION => -47i32,
            Status::CL_INVALID_KERNEL => -48i32,
            Status::CL_INVALID_ARG_INDEX => -49i32,
            Status::CL_INVALID_ARG_VALUE => -50i32,
            Status::CL_INVALID_ARG_SIZE => -51i32,
            Status::CL_INVALID_KERNEL_ARGS => -52i32,
            Status::CL_INVALID_WORK_DIMENSION => -53i32,
            Status::CL_INVALID_WORK_GROUP_SIZE => -54i32,
            Status::CL_INVALID_WORK_ITEM_SIZE => -55i32,
            Status::CL_INVALID_GLOBAL_OFFSET => -56i32,
            Status::CL_INVALID_EVENT_WAIT_LIST => -57i32,
            Status::CL_INVALID_EVENT => -58i32,
            Status::CL_INVALID_OPERATION => -59i32,
            Status::CL_INVALID_GL_OBJECT => -60i32,
            Status::CL_INVALID_BUFFER_SIZE => -61i32,
            Status::CL_INVALID_MIP_LEVEL => -62i32,
            Status::CL_INVALID_GLOBAL_WORK_SIZE => -63i32,
            Status::CL_INVALID_PROPERTY => -64i32,
            Status::CL_INVALID_IMAGE_DESCRIPTOR => -65i32,
            Status::CL_INVALID_COMPILER_OPTIONS => -66i32,
            Status::CL_INVALID_LINKER_OPTIONS => -67i32,
            Status::CL_INVALID_DEVICE_PARTITION_COUNT => -68i32,
            Status::CL_INVALID_PIPE_SIZE => -69i32,
            Status::CL_INVALID_DEVICE_QUEUE => -70i32,
            Status::CL_PLATFORM_NOT_FOUND_KHR => -1001i32,
        }
    }

    /// The symbolic name of this status.
    pub fn name(&self) -> (r: &'static str)
        ensures
            r@ == name_of(*self),
    {
        match self {
            Status::CL_SUCCESS => "CL_SUCCESS",
            Status::CL_DEVICE_NOT_FOUND => "CL_DEVICE_NOT_FOUND",
            Status::CL_DEVICE_NOT_AVAILABLE => "CL_DEVICE_NOT_AVAILABLE",
            Status::CL_COMPILER_NOT_AVAILABLE => "CL_COMPILER_NOT_AVAILABLE",
            Status::CL_MEM_OBJECT_ALLOCATION_FAILURE => "CL_MEM_OBJECT_ALLOCATION_FAILURE",
            Status::CL_OUT_OF_RESOURCES => "CL_OUT_OF_RESOURCES",
            Status::CL_OUT_OF_HOST_MEMORY => "CL_OUT_OF_HOST_MEMORY",
            Status::CL_PROFILING_INFO_NOT_AVAILABLE => "CL_PROFILING_INFO_NOT_AVAILABLE",
            Status::CL_MEM_COPY_OVERLAP => "CL_MEM_COPY_OVERLAP",
            Status::CL_IMAGE_FORMAT_MISMATCH => "CL_IMAGE_FORMAT_MISMATCH",
            Status::CL_IMAGE_FORMAT_NOT_SUPPORTED => "CL_IMAGE_FORMAT_NOT_SUPPORTED",
            Status::CL_BUILD_PROGRAM_FAILURE => "CL_BUILD_PROGRAM_FAILURE",
            Status::CL_MAP_FAILURE => "CL_MAP_FAILURE",
            Status::CL_MISALIGNED_SUB_BUFFER_OFFSET => "CL_MISALIGNED_SUB_BUFFER_OFFSET",
            Status::CL_EXEC_STATUS_ERROR_FOR_EVENTS_IN_WAIT_LIST => "CL_EXEC_STATUS_ERROR_FOR_EVENTS_IN_WAIT_LIST",
            Status::CL_COMPILE_PROGRAM_FAILURE => "CL_COMPILE_PROGRAM_FAILURE",
            Status::CL_LINKER_NOT_AVAILABLE => "CL_LINKER_NOT_AVAILABLE",
            Status::CL_LINK_PROGRAM_FAILURE => "CL_LINK_PROGRAM_FAILURE",
            Status::CL_DEVICE_PARTITION_FAILED => "CL_DEVICE_PARTITION_FAILED",
            Status::CL_KERNEL_ARG_INFO_NOT_AVAILABLE => "CL_KERNEL_ARG_INFO_NOT_AVAILABLE",
            Status::CL_INVALID_VALUE => "CL_INVALID_VALUE",
            Status::CL_INVALID_DEVICE_TYPE => "CL_INVALID_DEVICE_TYPE",
            Status::CL_INVALID_PLATFORM => "CL_INVALID_PLATFORM",
            Status::CL_INVALID_DEVICE => "CL_INVALID_DEVICE",
            Status::CL_INVALID_CONTEXT => "CL_INVALID_CONTEXT",
            Status::CL_INVALID_QUEUE_PROPERTIES => "CL_INVALID_QUEUE_PROPERTIES",
            Status::CL_INVALID_COMMAND_QUEUE => "CL_INVALID_COMMAND_QUEUE",
            Status::CL_INVALID_HOST_PTR => "CL_INVALID_HOST_PTR",
            Status::CL_INVALID_MEM_OBJECT => "CL_INVALID_MEM_OBJECT",
            Status::CL_INVALID_IMAGE_FORMAT_DESCRIPTOR => "CL_INVALID_IMAGE_FORMAT_DESCRIPTOR",
            Status::CL_INVALID_IMAGE_SIZE => "CL_INVALID_IMAGE_SIZE",
            Status::CL_INVALID_SAMPLER => "CL_INVALID_SAMPLER",
            Status::CL_INVALID_BINARY => "CL_INVALID_BINARY",
            Status::CL_INVALID_BUILD_OPTIONS => "CL_INVALID_BUILD_OPTIONS",
            Status::CL_INVALID_PROGRAM => "CL_INVALID_PROGRAM",
            Status::CL_INVALID_PROGRAM_EXECUTABLE => "CL_INVALID_PROGRAM_EXECUTABLE",
            Status::CL_INVALID_KERNEL_NAME => "CL_INVALID_KERNEL_NAME",
            Status::CL_INVALID_KERNEL_DEFINITION => "CL_INVALID_KERNEL_DEFINITION",
            Status::CL_INVALID_KERNEL => "CL_INVALID_KERNEL",
            Status::CL_INVALID_ARG_INDEX => "CL_INVALID_ARG_INDEX",
            Status::CL_INVALID_ARG_VALUE => "CL_INVALID_ARG_VALUE",
            Status::CL_INVALID_ARG_SIZE => "CL_INVALID_ARG_SIZE",
            Status::CL_INVALID_KERNEL_ARGS => "CL_INVALID_KERNEL_ARGS",
            Status::CL_INVALID_WORK_DIMENSION => "CL_INVALID_WORK_DIMENSION",
            Status::CL_INVALID_WORK_GROUP_SIZE => "CL_INVALID_WORK_GROUP_SIZE",
            Status::CL_INVALID_WORK_ITEM_SIZE => "CL_INVALID_WORK_ITEM_SIZE",
            Status::CL_INVALID_GLOBAL_OFFSET => "CL_INVALID_GLOBAL_OFFSET",
            Status::CL_INVALID_EVENT_WAIT_LIST => "CL_INVALID_EVENT_WAIT_LIST",
            Status::CL_INVALID_EVENT => "CL_INVALID_EVENT",
            Status::CL_INVALID_OPERATION => "CL_INVALID_OPERATION",
            Status::CL_INVALID_GL_OBJECT => "CL_INVALID_GL_OBJECT",
            Status::CL_INVALID_BUFFER_SIZE => "CL_INVALID_BUFFER_SIZE",
            Status::CL_INVALID_MIP_LEVEL => "CL_INVALID_MIP_LEVEL",
            Status::CL_INVALID_GLOBAL_WORK_SIZE => "CL_INVALID_GLOBAL_WORK_SIZE",
            Status::CL_INVALID_PROPERTY => "CL_INVALID_PROPERTY",
            Status::CL_INVALID_IMAGE_DESCRIPTOR => "CL_INVALID_IMAGE_DESCRIPTOR",
            Status::CL_INVALID_COMPILER_OPTIONS => "CL_INVALID_COMPILER_OPTIONS",
            Status::CL_INVALID_LINKER_OPTIONS => "CL_INVALID_LINKER_OPTIONS",
            Status::CL_INVALID_DEVICE_PARTITION_COUNT => "CL_INVALID_DEVICE_PARTITION_COUNT",
            Status::CL_INVALID_PIPE_SIZE => "CL_INVALID_PIPE_SIZE",
            Status::CL_INVALID_DEVICE_QUEUE => "CL_INVALID_DEVICE_QUEUE",
            Status::CL_PLATFORM_NOT_FOUND_KHR => "CL_PLATFORM_NOT_FOUND_KHR",
        }
    }
}

/// Looking up a status by its raw value gives that status back.
pub proof fn lemma_code_round_trip(s: Status)
    ensures
        status_of(code_of(s)) == Some(s),
{
}

/// Every known raw value is the raw value of the status it names.
pub proof fn lemma_status_round_trip(code: i32)
    requires
        is_known_code(code),
    ensures
        code_of(status_of(code)->Some_0) == code,
{
}

} // verus!
