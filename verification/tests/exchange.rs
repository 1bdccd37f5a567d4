use base64::engine::general_purpose::STANDARD;
use base64::Engine;
use secure_share::error::ErrorKind;
use secure_share::janitor::run_once;
use secure_share::keys::{protect_private_key, User};
use secure_share::listing::{get_user_shared_files, RequestQueryDto};
use secure_share::password::compare;
use secure_share::record::FileStatus;
use secure_share::retrieval::{
    authorize_retrieval, password_unlocks, retrieval_status, retrieve_file, RetrievalError,
    RetrieveFileDto,
};
use secure_share::store::RecordStore;
use secure_share::state::{AppState, Config};
use secure_share::upload::{
    check_expiration, check_file, upload_file, upload_status, FileUploadDtos, UploadError,
};

const ALICE_PUBLIC: [u8; 140] = [
    0x30, 0x81, 0x89, 0x02, 0x81, 0x81, 0x00, 0xb1, 0x86, 0x4f, 0x9f, 0x65, 0xf0, 0x1a, 0x7c, 0x06,
    0x03, 0x81, 0x82, 0x79, 0x0c, 0xb8, 0x30, 0x82, 0xa1, 0xf5, 0x73, 0xf4, 0x9f, 0x93, 0x24, 0x1b,
    0x01, 0x77, 0x19, 0x31, 0x46, 0x5c, 0x97, 0x1f, 0xee, 0x4d, 0xf1, 0x80, 0x93, 0x10, 0xaf, 0x29,
    0xef, 0x6e, 0x82, 0x40, 0x6c, 0x4c, 0x0f, 0x32, 0xb0, 0x8e, 0xbc, 0xb7, 0x18, 0x9c, 0x0a, 0x95,
    0x46, 0xda, 0xde, 0xc8, 0x28, 0xd4, 0x27, 0x49, 0x56, 0x6d, 0xc9, 0xf4, 0xbd, 0x18, 0xe0, 0xfd,
    0x83, 0xe0, 0x3a, 0xd9, 0x60, 0x92, 0x50, 0xa5, 0xf6, 0xdf, 0x9d, 0xcf, 0x60, 0x27, 0x56, 0x36,
    0xcf, 0xa8, 0xad, 0x10, 0x14, 0x12, 0x2d, 0xc7, 0x2b, 0x9a, 0x55, 0x79, 0x33, 0x0e, 0x02, 0x38,
    0xff, 0xff, 0x92, 0x94, 0x47, 0x68, 0x5a, 0xdf, 0xea, 0x66, 0xc9, 0x90, 0x96, 0x83, 0x8e, 0xa0,
    0x38, 0x3b, 0x2b, 0xd7, 0xe1, 0x09, 0x79, 0x02, 0x03, 0x01, 0x00, 0x01,
];

const ALICE_PRIVATE: [u8; 608] = [
    0x30, 0x82, 0x02, 0x5c, 0x02, 0x01, 0x00, 0x02, 0x81, 0x81, 0x00, 0xb1, 0x86, 0x4f, 0x9f, 0x65,
    0xf0, 0x1a, 0x7c, 0x06, 0x03, 0x81, 0x82, 0x79, 0x0c, 0xb8, 0x30, 0x82, 0xa1, 0xf5, 0x73, 0xf4,
    0x9f, 0x93, 0x24, 0x1b, 0x01, 0x77, 0x19, 0x31, 0x46, 0x5c, 0x97, 0x1f, 0xee, 0x4d, 0xf1, 0x80,
    0x93, 0x10, 0xaf, 0x29, 0xef, 0x6e, 0x82, 0x40, 0x6c, 0x4c, 0x0f, 0x32, 0xb0, 0x8e, 0xbc, 0xb7,
    0x18, 0x9c, 0x0a, 0x95, 0x46, 0xda, 0xde, 0xc8, 0x28, 0xd4, 0x27, 0x49, 0x56, 0x6d, 0xc9, 0xf4,
    0xbd, 0x18, 0xe0, 0xfd, 0x83, 0xe0, 0x3a, 0xd9, 0x60, 0x92, 0x50, 0xa5, 0xf6, 0xdf, 0x9d, 0xcf,
    0x60, 0x27, 0x56, 0x36, 0xcf, 0xa8, 0xad, 0x10, 0x14, 0x12, 0x2d, 0xc7, 0x2b, 0x9a, 0x55, 0x79,
    0x33, 0x0e, 0x02, 0x38, 0xff, 0xff, 0x92, 0x94, 0x47, 0x68, 0x5a, 0xdf, 0xea, 0x66, 0xc9, 0x90,
    0x96, 0x83, 0x8e, 0xa0, 0x38, 0x3b, 0x2b, 0xd7, 0xe1, 0x09, 0x79, 0x02, 0x03, 0x01, 0x00, 0x01,
    0x02, 0x81, 0x80, 0x36, 0xf1, 0xd7, 0x1b, 0x02, 0xb5, 0xf9, 0xbc, 0x81, 0x2f, 0xfc, 0x99, 0xa1,
    0x55, 0xaa, 0x7c, 0x79, 0x32, 0x1f, 0x82, 0x30, 0x28, 0x63, 0xa6, 0x3d, 0x25, 0x8a, 0xf3, 0x25,
    0x29, 0x1d, 0xe7, 0x38, 0x5e, 0xcd, 0x88, 0xfd, 0xbe, 0x86, 0xdf, 0x70, 0x1f, 0x47, 0x18, 0xd1,
    0x4f, 0xb3, 0x8a, 0xd0, 0xa9, 0x8c, 0xc4, 0x23, 0xf7, 0x5d, 0xf4, 0x78, 0x97, 0x61, 0x8e, 0xaa,
    0x6c, 0xd8, 0x9c, 0x7b, 0xd9, 0x23, 0xb3, 0xb5, 0xae, 0x3a, 0x36, 0xf5, 0x0b, 0xe8, 0xe9, 0x4f,
    0x75, 0x35, 0x9e, 0x56, 0x30, 0xe5, 0x4c, 0xca, 0x6f, 0xd8, 0x69, 0xa6, 0x34, 0xcf, 0x71, 0x56,
    0x04, 0x36, 0x95, 0xf9, 0xd5, 0xb7, 0x23, 0x09, 0x5e, 0xbf, 0xf9, 0xb3, 0x84, 0x3d, 0x92, 0x7f,
    0x83, 0xd9, 0x72, 0x7b, 0x85, 0xab, 0x7d, 0xbe, 0x49, 0xf4, 0xc7, 0x8e, 0xfa, 0x7c, 0x23, 0x17,
    0x0b, 0xed, 0x31, 0x02, 0x41, 0x00, 0xe6, 0xce, 0x8d, 0x26, 0xfa, 0x11, 0x93, 0xc1, 0x52, 0xca,
    0x03, 0x4f, 0x5e, 0x09, 0x91, 0x40, 0x9f, 0xeb, 0xdf, 0x48, 0x2d, 0x7d, 0xfb, 0x15, 0x06, 0xb5,
    0xfc, 0xcd, 0x60, 0xd6, 0xb4, 0x36, 0x71, 0x1b, 0xe9, 0x4a, 0xd7, 0x40, 0x90, 0xee, 0x84, 0x1a,
    0xd4, 0xda, 0x09, 0x64, 0x03, 0x28, 0x5e, 0x9d, 0xbb, 0xf0, 0xf9, 0x61, 0x81, 0xa0, 0x38, 0x19,
    0x96, 0x55, 0x17, 0xdb, 0xc1, 0x7f, 0x02, 0x41, 0x00, 0xc4, 0xe6, 0xe4, 0x76, 0x6f, 0x83, 0x96,
    0xd4, 0x0d, 0x6f, 0x53, 0x3c, 0xa7, 0x6e, 0x29, 0x8e, 0x48, 0xca, 0x97, 0x5b, 0xd8, 0x58, 0xc5,
    0xb4, 0x5b, 0x7c, 0x17, 0xba, 0xa9, 0x77, 0x0f, 0xca, 0x66, 0x9f, 0xa8, 0x3f, 0x7b, 0x67, 0xf2,
    0x24, 0x45, 0x81, 0x3f, 0x3b, 0xa2, 0x2e, 0x8d, 0x74, 0x12, 0x08, 0x60, 0x4a, 0x34, 0xaa, 0xf2,
    0xaa, 0x8f, 0x78, 0x83, 0xda, 0x7f, 0x02, 0xc1, 0x07, 0x02, 0x41, 0x00, 0xa4, 0xd4, 0x6f, 0xc3,
    0x9d, 0x24, 0xfe, 0x63, 0x3a, 0xcf, 0xa0, 0x0b, 0x87, 0x39, 0xc7, 0xec, 0xe2, 0x08, 0x9e, 0x1d,
    0xba, 0xb7, 0x54, 0x9f, 0x90, 0x7a, 0x59, 0x3f, 0x06, 0xe0, 0x6e, 0x34, 0xcf, 0x14, 0x42, 0xc8,
    0x3a, 0xef, 0x16, 0x51, 0xf0, 0x30, 0x05, 0x40, 0x6d, 0x22, 0x6a, 0x8a, 0xe2, 0xff, 0x3c, 0x9f,
    0xfc, 0x48, 0xe1, 0x3c, 0xdd, 0xb3, 0x90, 0x43, 0xd6, 0xd5, 0x0e, 0xdb, 0x02, 0x40, 0x5c, 0xcf,
    0x64, 0x82, 0xba, 0xdf, 0x70, 0xb9, 0xb5, 0x37, 0x73, 0x29, 0x94, 0xd5, 0xe5, 0x3a, 0x8e, 0xef,
    0x07, 0x57, 0x20, 0x6b, 0xff, 0x8c, 0x9a, 0xce, 0xac, 0x34, 0xac, 0xea, 0x55, 0x04, 0x17, 0x49,
    0x4c, 0x39, 0xd8, 0x06, 0x4f, 0xe9, 0x6e, 0xe5, 0x94, 0x13, 0x9c, 0xc7, 0x8a, 0x9f, 0x5a, 0x5c,
    0x9e, 0x5e, 0x7b, 0xe2, 0xd4, 0x0d, 0x37, 0x21, 0x1c, 0x2d, 0x62, 0x4e, 0xbf, 0x03, 0x02, 0x40,
    0x72, 0xc8, 0x44, 0x9a, 0x18, 0x15, 0x67, 0xf0, 0xd2, 0xcd, 0xe3, 0x3b, 0x2b, 0xfc, 0xcc, 0x44,
    0xcc, 0xba, 0x14, 0x9c, 0x5f, 0xa1, 0x3b, 0xd3, 0x67, 0x82, 0x28, 0x90, 0x21, 0xec, 0x4c, 0xff,
    0x2c, 0xef, 0x52, 0x83, 0x02, 0x0e, 0xb1, 0x9b, 0xfd, 0xd2, 0x12, 0x00, 0x7f, 0x14, 0xb8, 0xfe,
    0x6c, 0x53, 0xeb, 0xee, 0x8b, 0xe5, 0x9b, 0xf1, 0xbf, 0x8f, 0x36, 0xec, 0x9d, 0xbd, 0x84, 0x5e,
];

const BOB_PUBLIC: [u8; 140] = [
    0x30, 0x81, 0x89, 0x02, 0x81, 0x81, 0x00, 0xbd, 0xeb, 0x12, 0x73, 0x4c, 0x17, 0xed, 0xb1, 0xc6,
    0xdf, 0x13, 0x38, 0x8b, 0xf9, 0x2f, 0x48, 0xa4, 0xc4, 0x77, 0x42, 0x4a, 0x7c, 0x79, 0xe7, 0x29,
    0xb7, 0x7e, 0xf2, 0x4c, 0x9c, 0xfa, 0x3d, 0xca, 0x28, 0x35, 0x66, 0x59, 0xe9, 0xa6, 0x53, 0x9e,
    0xc5, 0x68, 0xfc, 0x93, 0xb2, 0xda, 0xa4, 0xd1, 0xd0, 0x86, 0x17, 0x08, 0x48, 0x78, 0x61, 0x5e,
    0xed, 0x49, 0x7b, 0xb9, 0x74, 0x56, 0xd4, 0x1a, 0xbe, 0x61, 0x66, 0x21, 0x0a, 0xe2, 0x51, 0xff,
    0x4a, 0x7f, 0x94, 0xa7, 0xfc, 0xef, 0x21, 0xc8, 0x9f, 0xc0, 0x44, 0x9e, 0xf6, 0x64, 0x6a, 0x2e,
    0x4a, 0x15, 0xdb, 0x67, 0x29, 0xd2, 0x7e, 0x31, 0x5b, 0xd3, 0xc4, 0xd2, 0x35, 0xc3, 0x59, 0x63,
    0x22, 0xec, 0x26, 0xf9, 0x94, 0xd9, 0xfc, 0x40, 0x79, 0x91, 0xcb, 0x4a, 0x8d, 0x87, 0x74, 0x0e,
    0xe9, 0x4a, 0x69, 0x1e, 0x0d, 0x99, 0xf1, 0x02, 0x03, 0x01, 0x00, 0x01,
];

const BOB_PRIVATE: [u8; 609] = [
    0x30, 0x82, 0x02, 0x5d, 0x02, 0x01, 0x00, 0x02, 0x81, 0x81, 0x00, 0xbd, 0xeb, 0x12, 0x73, 0x4c,
    0x17, 0xed, 0xb1, 0xc6, 0xdf, 0x13, 0x38, 0x8b, 0xf9, 0x2f, 0x48, 0xa4, 0xc4, 0x77, 0x42, 0x4a,
    0x7c, 0x79, 0xe7, 0x29, 0xb7, 0x7e, 0xf2, 0x4c, 0x9c, 0xfa, 0x3d, 0xca, 0x28, 0x35, 0x66, 0x59,
    0xe9, 0xa6, 0x53, 0x9e, 0xc5, 0x68, 0xfc, 0x93, 0xb2, 0xda, 0xa4, 0xd1, 0xd0, 0x86, 0x17, 0x08,
    0x48, 0x78, 0x61, 0x5e, 0xed, 0x49, 0x7b, 0xb9, 0x74, 0x56, 0xd4, 0x1a, 0xbe, 0x61, 0x66, 0x21,
    0x0a, 0xe2, 0x51, 0xff, 0x4a, 0x7f, 0x94, 0xa7, 0xfc, 0xef, 0x21, 0xc8, 0x9f, 0xc0, 0x44, 0x9e,
    0xf6, 0x64, 0x6a, 0x2e, 0x4a, 0x15, 0xdb, 0x67, 0x29, 0xd2, 0x7e, 0x31, 0x5b, 0xd3, 0xc4, 0xd2,
    0x35, 0xc3, 0x59, 0x63, 0x22, 0xec, 0x26, 0xf9, 0x94, 0xd9, 0xfc, 0x40, 0x79, 0x91, 0xcb, 0x4a,
    0x8d, 0x87, 0x74, 0x0e, 0xe9, 0x4a, 0x69, 0x1e, 0x0d, 0x99, 0xf1, 0x02, 0x03, 0x01, 0x00, 0x01,
    0x02, 0x81, 0x80, 0x41, 0x70, 0x9c, 0x7c, 0xe9, 0xfd, 0x5c, 0xc3, 0xe3, 0x18, 0xbe, 0x90, 0xbf,
    0x7a, 0x6f, 0x56, 0x82, 0x9f, 0xc7, 0xd0, 0x29, 0xc6, 0x56, 0x62, 0xd6, 0xb7, 0x09, 0xa1, 0x07,
    0xd1, 0x17, 0x50, 0xef, 0x35, 0x87, 0xa0, 0xea, 0xde, 0x5d, 0x97, 0x76, 0x9f, 0xe3, 0x1b, 0x14,
    0xf1, 0x8d, 0xf1, 0x38, 0xf2, 0xb7, 0x21, 0x7c, 0x93, 0x2c, 0x17, 0xb1, 0x13, 0xe6, 0x3c, 0x21,
    0x9c, 0xfa, 0xc5, 0xa6, 0x60, 0x86, 0x53, 0x55, 0x0b, 0x9a, 0x22, 0x5d, 0xae, 0x07, 0x8e, 0x86,
    0x0b, 0xe9, 0xfd, 0xcb, 0x0c, 0x2a, 0x43, 0xe6, 0x43, 0xaa, 0xc6, 0xf9, 0x53, 0x30, 0x13, 0xcf,
    0x29, 0xab, 0x94, 0xa5, 0xf5, 0x0b, 0xa2, 0x81, 0x89, 0xcc, 0xc6, 0x8b, 0xd8, 0x85, 0xb0, 0xba,
    0x63, 0xf1, 0x9a, 0xa1, 0xa2, 0x3c, 0x7b, 0xd9, 0x86, 0x25, 0x88, 0xf2, 0xfa, 0xd8, 0xcb, 0xdd,
    0x40, 0x01, 0x79, 0x02, 0x41, 0x00, 0xf4, 0xc5, 0xa2, 0xf9, 0x19, 0x5c, 0x79, 0x23, 0x95, 0x12,
    0x01, 0x53, 0xe5, 0x1d, 0x2e, 0x39, 0xb0, 0x55, 0x5e, 0x5b, 0xe1, 0xe2, 0x7a, 0x78, 0x09, 0x4d,
    0x48, 0xf8, 0xc6, 0x6b, 0xab, 0x28, 0x73, 0x1c, 0x75, 0xf3, 0xb2, 0xe1, 0x7c, 0xe9, 0x6b, 0x31,
    0xd7, 0x0e, 0x3c, 0x60, 0x31, 0x7d, 0x04, 0x42, 0x19, 0xe3, 0x14, 0x7d, 0x3e, 0xcf, 0xf2, 0xb7,
    0xaf, 0x65, 0x05, 0xca, 0xcf, 0xbb, 0x02, 0x41, 0x00, 0xc6, 0xa1, 0x49, 0x52, 0x65, 0x7d, 0xc3,
    0x99, 0xee, 0x9a, 0x78, 0xb6, 0xea, 0x12, 0x10, 0x78, 0x1f, 0xcb, 0xb7, 0x74, 0x0e, 0xc5, 0xf3,
    0xd8, 0xbf, 0xe8, 0xe6, 0x78, 0xc1, 0x03, 0x23, 0x91, 0x4f, 0x67, 0x2f, 0x4c, 0x10, 0x79, 0x97,
    0x5a, 0x66, 0x47, 0x5b, 0xaf, 0x9a, 0x93, 0x96, 0xfc, 0xab, 0xa4, 0xee, 0x93, 0x81, 0x4a, 0xdb,
    0xcc, 0x70, 0x7e, 0x78, 0x23, 0x10, 0xc1, 0xf4, 0x43, 0x02, 0x41, 0x00, 0xbf, 0xe0, 0x05, 0xc7,
    0x5b, 0x58, 0x20, 0x26, 0x02, 0x7f, 0x60, 0xc7, 0x11, 0x3d, 0x74, 0xb5, 0x08, 0x43, 0x83, 0x7a,
    0x67, 0x72, 0x10, 0x2a, 0xf4, 0xaf, 0xbe, 0xda, 0x35, 0x40, 0xc5, 0xa5, 0x29, 0xc7, 0x4f, 0xb7,
    0x3f, 0xac, 0x7f, 0x2c, 0xc3, 0x39, 0x08, 0xaa, 0x42, 0x2d, 0xed, 0xdd, 0x60, 0x6f, 0x28, 0xb7,
    0xd7, 0xa1, 0xee, 0x91, 0x38, 0x65, 0x41, 0x7a, 0xe1, 0xb5, 0x80, 0x6d, 0x02, 0x41, 0x00, 0x8a,
    0x1a, 0xd4, 0x3f, 0x2c, 0xff, 0xdf, 0x83, 0x64, 0xca, 0x14, 0x8a, 0xa1, 0x7f, 0x03, 0xe2, 0x71,
    0xc1, 0x14, 0x01, 0xe6, 0xcf, 0xad, 0xf7, 0x13, 0xa0, 0x1c, 0xb6, 0xf3, 0x04, 0x7a, 0xb3, 0x6a,
    0xf1, 0x04, 0x8a, 0xaf, 0x9d, 0xcb, 0x25, 0x78, 0x9d, 0xbe, 0xda, 0xfe, 0xf0, 0x05, 0x78, 0x12,
    0xe3, 0xef, 0x59, 0xb1, 0xf8, 0xd9, 0x90, 0x70, 0xdb, 0x0e, 0x2e, 0xdb, 0x54, 0xef, 0xbf, 0x02,
    0x40, 0x33, 0x8a, 0xff, 0xd0, 0x0e, 0xaf, 0x8a, 0x91, 0x2d, 0x20, 0xf7, 0xac, 0xf8, 0x5d, 0xc7,
    0x45, 0x7d, 0x69, 0x32, 0x8a, 0xfb, 0x5f, 0xe5, 0xdb, 0x50, 0x46, 0xbb, 0xc6, 0xc4, 0x86, 0xc0,
    0x31, 0xa4, 0x54, 0xfa, 0x58, 0x08, 0x1e, 0x0f, 0x33, 0x44, 0xd9, 0xa0, 0xcd, 0xde, 0x78, 0x90,
    0x1f, 0xfe, 0xf6, 0x23, 0xc8, 0x6e, 0xd8, 0x4d, 0xff, 0xc5, 0xbc, 0x5b, 0x06, 0xb6, 0x72, 0xa6,
    0x21,
];

const NOW: i64 = 1_700_000_000;
const TOMORROW: &str = "2023-11-15T22:13:20Z";
const TOMORROW_AT: i64 = 1_700_086_400;

const ALICE: u128 = 1;
const BOB: u128 = 2;
const CAROL: u128 = 3;
const DAVE: u128 = 4;

fn config(single_retrieval: bool) -> Config {
    Config {
        database_url: String::new(),
        jwt_secret: "secret".to_string(),
        jwt_maxage: 60,
        port: 8000,
        max_file_size: 1024,
        single_retrieval,
    }
}

fn state(single_retrieval: bool) -> AppState {
    let mut state = AppState::new(config(single_retrieval));
    state.db_client.users.add(User {
        id: ALICE,
        name: "Alice".to_string(),
        email: "alice@example.com".to_string(),
        public_key: Some(STANDARD.encode(ALICE_PUBLIC)),
        private_key_material: Some(protect_private_key(&ALICE_PRIVATE, "alice-pw").unwrap()),
    });
    state.db_client.users.add(User {
        id: BOB,
        name: "Bob".to_string(),
        email: "bob@example.com".to_string(),
        public_key: None,
        private_key_material: None,
    });
    state.db_client.users.add(User {
        id: CAROL,
        name: "Carol".to_string(),
        email: "carol@example.com".to_string(),
        public_key: Some(STANDARD.encode(BOB_PUBLIC)),
        private_key_material: Some(protect_private_key(&BOB_PRIVATE, "carol-pw").unwrap()),
    });
    state.db_client.users.add(User {
        id: DAVE,
        name: "Dave".to_string(),
        email: "dave@example.com".to_string(),
        public_key: Some(STANDARD.encode(ALICE_PUBLIC)),
        private_key_material: None,
    });
    state
}

fn form(email: &str, password: Option<&str>, expiration: &str) -> FileUploadDtos {
    FileUploadDtos {
        recipient_email: email.to_string(),
        password: password.map(str::to_string),
        expiration_date: expiration.to_string(),
    }
}

fn ask(password: Option<&str>, account_password: &str) -> RetrieveFileDto {
    RetrieveFileDto {
        password: password.map(str::to_string),
        account_password: account_password.to_string(),
    }
}

fn upload(state: &mut AppState, email: &str, password: Option<&str>) -> Result<u64, UploadError> {
    upload_file(
        state,
        BOB,
        "report.pdf".to_string(),
        b"0123456789".to_vec(),
        form(email, password, TOMORROW),
        NOW,
    )
}

#[test]
fn upload_then_retrieve_then_expire() {
    let mut state = state(false);
    let uploaded = upload(&mut state, "alice@example.com", None);
    assert_eq!(upload_status(&uploaded), 201);
    let id = uploaded.unwrap();
    let download = retrieve_file(&mut state, ALICE, id, &ask(None, "alice-pw"), NOW + 10);
    assert_eq!(retrieval_status(&download), 200);
    let download = download.unwrap();
    assert_eq!(download.plaintext, b"0123456789".to_vec());
    assert_eq!(download.filename, "report.pdf");
    let late = retrieve_file(&mut state, ALICE, id, &ask(None, "alice-pw"), TOMORROW_AT + 1);
    assert_eq!(retrieval_status(&late), 410);
    assert_eq!(late.unwrap_err(), RetrievalError::Expired);
}

#[test]
fn upload_stores_one_active_record() {
    let mut state = state(false);
    let id = upload(&mut state, "alice@example.com", None).unwrap();
    assert_eq!(id, 0);
    assert_eq!(state.db_client.files.len(), 1);
    let record = state.db_client.files.load_for_authorization(id).unwrap();
    assert_eq!(record.owner_id, BOB);
    assert_eq!(record.recipient_id, ALICE);
    assert_eq!(record.filename, "report.pdf");
    assert_eq!(record.size_bytes, 10);
    assert_eq!(record.ciphertext.len(), 26);
    assert_ne!(&record.ciphertext[..10], b"0123456789");
    assert!(!record.wrapped_key.is_empty());
    assert!(record.access_password_hash.is_none());
    assert_eq!(record.created_at, NOW);
    assert_eq!(record.expires_at, TOMORROW_AT);
    assert_eq!(record.status, FileStatus::Active);
}

#[test]
fn upload_for_a_recipient_without_key_is_refused() {
    let mut state = state(false);
    let res = upload(&mut state, "bob@example.com", None);
    assert_eq!(res, Err(UploadError::RecipientHasNoKey));
    assert_eq!(upload_status(&res), 400);
    assert_eq!(res.unwrap_err().kind(), ErrorKind::Validation);
    assert_eq!(res.unwrap_err().kind().status(), 400);
    assert_eq!(state.db_client.files.len(), 0);
}

#[test]
fn upload_refuses_a_malformed_address() {
    let mut state = state(false);
    assert_eq!(upload(&mut state, "not an address", None), Err(UploadError::InvalidEmail));
    assert_eq!(upload(&mut state, "", None), Err(UploadError::InvalidEmail));
    assert_eq!(state.db_client.files.len(), 0);
}

#[test]
fn upload_refuses_an_unknown_recipient() {
    let mut state = state(false);
    let res = upload(&mut state, "nobody@example.com", None);
    assert_eq!(res, Err(UploadError::RecipientNotFound));
    assert_eq!(res.unwrap_err().kind().status(), 404);
    assert_eq!(state.db_client.files.len(), 0);
}

#[test]
fn upload_refuses_a_bad_expiration() {
    let mut state = state(false);
    for date in ["", "tomorrow", "2023-11-14T22:13:20Z", "2023-11-14T22:13:19Z", "2023-11-15"] {
        let res = upload_file(
            &mut state,
            BOB,
            "report.pdf".to_string(),
            b"0123456789".to_vec(),
            form("alice@example.com", None, date),
            NOW,
        );
        assert_eq!(res, Err(UploadError::InvalidExpiration));
    }
    assert_eq!(state.db_client.files.len(), 0);
}

#[test]
fn upload_takes_an_expiration_one_second_ahead() {
    let mut state = state(false);
    let res = upload_file(
        &mut state,
        BOB,
        "report.pdf".to_string(),
        b"0123456789".to_vec(),
        form("alice@example.com", None, "2023-11-14T23:13:21+01:00"),
        NOW,
    );
    let id = res.unwrap();
    assert_eq!(state.db_client.files.load_for_authorization(id).unwrap().expires_at, NOW + 1);
}

#[test]
fn upload_refuses_an_empty_file() {
    let mut state = state(false);
    let res = upload_file(
        &mut state,
        BOB,
        "empty".to_string(),
        Vec::new(),
        form("alice@example.com", None, TOMORROW),
        NOW,
    );
    assert_eq!(res, Err(UploadError::EmptyFile));
    assert_eq!(state.db_client.files.len(), 0);
}

#[test]
fn upload_refuses_a_file_over_the_limit() {
    let mut state = state(false);
    let at_limit = upload_file(
        &mut state,
        BOB,
        "big".to_string(),
        vec![0u8; 1024],
        form("alice@example.com", None, TOMORROW),
        NOW,
    );
    assert!(at_limit.is_ok());
    let over = upload_file(
        &mut state,
        BOB,
        "bigger".to_string(),
        vec![0u8; 1025],
        form("alice@example.com", None, TOMORROW),
        NOW,
    );
    assert_eq!(over, Err(UploadError::FileTooLarge));
    assert_eq!(state.db_client.files.len(), 1);
}

#[test]
fn upload_refuses_an_unusable_password() {
    let mut state = state(false);
    assert_eq!(upload(&mut state, "alice@example.com", Some("")), Err(UploadError::InvalidPassword));
    let long = "x".repeat(65);
    assert_eq!(
        upload(&mut state, "alice@example.com", Some(&long)),
        Err(UploadError::InvalidPassword)
    );
    assert_eq!(state.db_client.files.len(), 0);
}

#[test]
fn upload_fails_on_a_key_that_is_no_key() {
    let mut state = state(false);
    state.db_client.users.add(User {
        id: 9,
        name: "Eve".to_string(),
        email: "eve@example.com".to_string(),
        public_key: Some(STANDARD.encode([1u8, 2, 3])),
        private_key_material: None,
    });
    assert_eq!(upload(&mut state, "eve@example.com", None), Err(UploadError::EncryptionFailed));
    assert_eq!(UploadError::EncryptionFailed.kind(), ErrorKind::Crypto);
    assert_eq!(state.db_client.files.len(), 0);
}

#[test]
fn rules_are_held_in_their_order() {
    let mut state = state(false);
    let res = upload_file(
        &mut state,
        BOB,
        "x".to_string(),
        Vec::new(),
        form("bad address", Some(""), "never"),
        NOW,
    );
    assert_eq!(res, Err(UploadError::InvalidEmail));
    let res = upload_file(
        &mut state,
        BOB,
        "x".to_string(),
        Vec::new(),
        form("nobody@example.com", Some(""), "never"),
        NOW,
    );
    assert_eq!(res, Err(UploadError::RecipientNotFound));
    let res = upload_file(
        &mut state,
        BOB,
        "x".to_string(),
        Vec::new(),
        form("bob@example.com", Some(""), "never"),
        NOW,
    );
    assert_eq!(res, Err(UploadError::RecipientHasNoKey));
    let res = upload_file(
        &mut state,
        BOB,
        "x".to_string(),
        Vec::new(),
        form("alice@example.com", Some(""), "never"),
        NOW,
    );
    assert_eq!(res, Err(UploadError::InvalidExpiration));
    let res = upload_file(
        &mut state,
        BOB,
        "x".to_string(),
        Vec::new(),
        form("alice@example.com", Some(""), TOMORROW),
        NOW,
    );
    assert_eq!(res, Err(UploadError::EmptyFile));
}

#[test]
fn expiration_must_lie_in_the_future() {
    assert_eq!(check_expiration(Some(11), 10), Ok(11));
    assert_eq!(check_expiration(Some(10), 10), Err(UploadError::InvalidExpiration));
    assert_eq!(check_expiration(Some(9), 10), Err(UploadError::InvalidExpiration));
    assert_eq!(check_expiration(None, 10), Err(UploadError::InvalidExpiration));
}

#[test]
fn file_size_is_held_against_the_limit() {
    assert_eq!(check_file(0, 10), Err(UploadError::EmptyFile));
    assert_eq!(check_file(1, 10), Ok(()));
    assert_eq!(check_file(10, 10), Ok(()));
    assert_eq!(check_file(11, 10), Err(UploadError::FileTooLarge));
    assert_eq!(check_file(0, 0), Err(UploadError::EmptyFile));
}

#[test]
fn password_is_stored_as_a_hash() {
    let mut state = state(false);
    let id = upload(&mut state, "alice@example.com", Some("open sesame")).unwrap();
    let record = state.db_client.files.load_for_authorization(id).unwrap();
    let hash = record.access_password_hash.as_ref().unwrap();
    assert_ne!(hash, "open sesame");
    assert_eq!(compare("open sesame", hash), Ok(true));
}

#[test]
fn wrong_password_then_right_password_then_consumed() {
    let mut state = state(true);
    let id = upload(&mut state, "alice@example.com", Some("open sesame")).unwrap();
    let wrong = retrieve_file(&mut state, ALICE, id, &ask(Some("open barley"), "alice-pw"), NOW);
    assert_eq!(wrong.unwrap_err(), RetrievalError::InvalidPassword);
    assert_eq!(RetrievalError::InvalidPassword.kind().status(), 403);
    let missing = retrieve_file(&mut state, ALICE, id, &ask(None, "alice-pw"), NOW);
    assert_eq!(missing.unwrap_err(), RetrievalError::InvalidPassword);
    assert_eq!(
        state.db_client.files.load_for_authorization(id).unwrap().status,
        FileStatus::Active
    );
    let right = retrieve_file(&mut state, ALICE, id, &ask(Some("open sesame"), "alice-pw"), NOW);
    assert_eq!(right.unwrap().plaintext, b"0123456789".to_vec());
    assert_eq!(
        state.db_client.files.load_for_authorization(id).unwrap().status,
        FileStatus::Retrieved
    );
    let again = retrieve_file(&mut state, ALICE, id, &ask(Some("open sesame"), "alice-pw"), NOW);
    assert_eq!(again.unwrap_err(), RetrievalError::AlreadyConsumed);
    assert_eq!(RetrievalError::AlreadyConsumed.kind().status(), 410);
}

#[test]
fn without_the_policy_a_file_is_retrieved_again() {
    let mut state = state(false);
    let id = upload(&mut state, "alice@example.com", None).unwrap();
    let first = retrieve_file(&mut state, ALICE, id, &ask(None, "alice-pw"), NOW).unwrap();
    let second = retrieve_file(&mut state, ALICE, id, &ask(None, "alice-pw"), NOW).unwrap();
    assert_eq!(first.plaintext, second.plaintext);
}

#[test]
fn non_recipient_and_missing_record_look_alike() {
    let mut state = state(false);
    let id = upload(&mut state, "alice@example.com", Some("open sesame")).unwrap();
    let stranger = retrieve_file(&mut state, CAROL, id, &ask(Some("open sesame"), "carol-pw"), NOW);
    let missing = retrieve_file(&mut state, CAROL, id + 1, &ask(Some("open sesame"), "carol-pw"), NOW);
    assert_eq!(stranger.as_ref().unwrap_err(), &RetrievalError::Forbidden);
    assert_eq!(stranger.unwrap_err(), missing.unwrap_err());
    let owner = retrieve_file(&mut state, BOB, id, &ask(Some("open sesame"), "bob-pw"), NOW);
    assert_eq!(owner.unwrap_err(), RetrievalError::Forbidden);
    assert_eq!(RetrievalError::Forbidden.kind().status(), 403);
    let late = retrieve_file(&mut state, CAROL, id, &ask(None, "carol-pw"), TOMORROW_AT + 5);
    assert_eq!(late.unwrap_err(), RetrievalError::Forbidden);
}

#[test]
fn expiry_is_enforced_before_the_janitor_has_passed() {
    let mut state = state(false);
    let id = upload(&mut state, "alice@example.com", None).unwrap();
    let at_expiry = retrieve_file(&mut state, ALICE, id, &ask(None, "alice-pw"), TOMORROW_AT);
    assert_eq!(at_expiry.unwrap_err(), RetrievalError::Expired);
    let before = retrieve_file(&mut state, ALICE, id, &ask(None, "alice-pw"), TOMORROW_AT - 1);
    assert!(before.is_ok());
    assert_eq!(state.db_client.files.len(), 1);
}

#[test]
fn marked_record_is_refused_even_before_its_expiry() {
    let mut state = state(false);
    let id = upload(&mut state, "alice@example.com", None).unwrap();
    state.db_client.files.mark_expired(TOMORROW_AT);
    let res = retrieve_file(&mut state, ALICE, id, &ask(None, "alice-pw"), NOW);
    assert_eq!(res.unwrap_err(), RetrievalError::Expired);
}

#[test]
fn wrong_account_password_is_forbidden() {
    let mut state = state(false);
    let id = upload(&mut state, "alice@example.com", None).unwrap();
    let res = retrieve_file(&mut state, ALICE, id, &ask(None, "not-alice-pw"), NOW);
    assert_eq!(res.unwrap_err(), RetrievalError::Forbidden);
    assert_eq!(
        state.db_client.files.load_for_authorization(id).unwrap().status,
        FileStatus::Active
    );
}

#[test]
fn recipient_without_private_key_is_forbidden() {
    let mut state = state(false);
    let id = upload(&mut state, "dave@example.com", None).unwrap();
    let res = retrieve_file(&mut state, DAVE, id, &ask(None, "dave-pw"), NOW);
    assert_eq!(res.unwrap_err(), RetrievalError::Forbidden);
}

#[test]
fn tampered_record_does_not_decrypt() {
    let mut state = state(false);
    state.db_client.users.add(User {
        id: 8,
        name: "Mallory".to_string(),
        email: "mallory@example.com".to_string(),
        public_key: Some(STANDARD.encode(ALICE_PUBLIC)),
        private_key_material: Some(protect_private_key(&BOB_PRIVATE, "mallory-pw").unwrap()),
    });
    let id = upload(&mut state, "mallory@example.com", None).unwrap();
    let res = retrieve_file(&mut state, 8, id, &ask(None, "mallory-pw"), NOW);
    assert_eq!(res.unwrap_err(), RetrievalError::DecryptionFailed);
    assert_eq!(RetrievalError::DecryptionFailed.kind(), ErrorKind::Crypto);
    assert_eq!(
        state.db_client.files.load_for_authorization(id).unwrap().status,
        FileStatus::Active
    );
}

#[test]
fn janitor_reclaims_what_is_over() {
    let mut state = state(false);
    let first = upload(&mut state, "alice@example.com", None).unwrap();
    let second = upload_file(
        &mut state,
        BOB,
        "later.txt".to_string(),
        b"later".to_vec(),
        form("alice@example.com", None, "2023-11-16T22:13:20Z"),
        NOW,
    )
    .unwrap();
    let early = run_once(&mut state, NOW);
    assert_eq!((early.marked, early.deleted), (0, 0));
    let report = run_once(&mut state, TOMORROW_AT);
    assert_eq!((report.marked, report.deleted), (1, 1));
    assert!(state.db_client.files.load_for_authorization(first).is_none());
    assert!(state.db_client.files.load_for_authorization(second).is_some());
    let again = run_once(&mut state, TOMORROW_AT);
    assert_eq!((again.marked, again.deleted), (0, 0));
    let gone = retrieve_file(&mut state, ALICE, first, &ask(None, "alice-pw"), TOMORROW_AT);
    assert_eq!(gone.unwrap_err(), RetrievalError::Forbidden);
}

#[test]
fn janitor_removes_records_marked_by_an_interrupted_pass() {
    let mut state = state(false);
    upload(&mut state, "alice@example.com", None).unwrap();
    assert_eq!(state.db_client.files.mark_expired(TOMORROW_AT), 1);
    let report = run_once(&mut state, NOW);
    assert_eq!((report.marked, report.deleted), (0, 1));
    assert_eq!(state.db_client.files.len(), 0);
}

#[test]
fn list_shows_what_is_shared_with_the_caller() {
    let mut state = state(false);
    upload(&mut state, "alice@example.com", None).unwrap();
    upload(&mut state, "carol@example.com", None).unwrap();
    upload(&mut state, "alice@example.com", None).unwrap();
    let query = RequestQueryDto { page: None, limit: None };
    let list = get_user_shared_files(&state, ALICE, &query).unwrap();
    assert_eq!(list.len(), 2);
    assert_eq!(list[0].id, 0);
    assert_eq!(list[1].id, 2);
    assert_eq!(list[0].filename, "report.pdf");
    assert_eq!(list[0].size_bytes, 10);
    assert_eq!(list[0].owner_id, BOB);
    assert_eq!(list[0].expires_at, TOMORROW_AT);
    assert_eq!(list[0].status, FileStatus::Active);
    assert_eq!(get_user_shared_files(&state, BOB, &query).unwrap().len(), 0);
}

#[test]
fn list_is_served_in_pages() {
    let mut state = state(false);
    for _ in 0..5 {
        upload(&mut state, "alice@example.com", None).unwrap();
    }
    let page = |page, limit| RequestQueryDto { page: Some(page), limit: Some(limit) };
    let ids = |state: &AppState, q: RequestQueryDto| -> Vec<u64> {
        get_user_shared_files(state, ALICE, &q).unwrap().iter().map(|s| s.id).collect()
    };
    assert_eq!(ids(&state, page(1, 2)), vec![0, 1]);
    assert_eq!(ids(&state, page(2, 2)), vec![2, 3]);
    assert_eq!(ids(&state, page(3, 2)), vec![4]);
    assert_eq!(ids(&state, page(4, 2)), Vec::<u64>::new());
    assert_eq!(ids(&state, page(1, 50)), vec![0, 1, 2, 3, 4]);
    assert_eq!(ids(&state, page(usize::MAX, 50)), Vec::<u64>::new());
}

#[test]
fn list_refuses_a_query_outside_the_limits() {
    let state = state(false);
    for (page, limit) in [(Some(0), None), (None, Some(0)), (None, Some(51)), (Some(0), Some(0))] {
        let err = get_user_shared_files(&state, ALICE, &RequestQueryDto { page, limit }).unwrap_err();
        assert_eq!(err.status, 400);
        assert_eq!(err.message, "Invalid page or limit");
    }
}

#[test]
fn upload_fails_when_the_store_is_full() {
    let mut state = state(false);
    state.db_client.files = RecordStore::restore(Vec::new(), u64::MAX).unwrap();
    let res = upload(&mut state, "alice@example.com", None);
    assert_eq!(res, Err(UploadError::Storage));
    assert_eq!(upload_status(&res), 500);
    assert_eq!(state.db_client.files.len(), 0);
}

#[test]
fn authorization_is_decided_in_its_order() {
    let mut state = state(true);
    let id = upload(&mut state, "alice@example.com", Some("open sesame")).unwrap();
    let record = state.db_client.files.load_for_authorization(id);
    let right = Some("open sesame".to_string());
    let wrong = Some("open barley".to_string());
    assert_eq!(authorize_retrieval(None, ALICE, &right, true, NOW), Err(RetrievalError::Forbidden));
    assert_eq!(
        authorize_retrieval(record, CAROL, &right, true, NOW),
        Err(RetrievalError::Forbidden)
    );
    assert_eq!(
        authorize_retrieval(record, ALICE, &wrong, true, TOMORROW_AT),
        Err(RetrievalError::InvalidPassword)
    );
    assert_eq!(
        authorize_retrieval(record, ALICE, &right, true, TOMORROW_AT),
        Err(RetrievalError::Expired)
    );
    assert_eq!(authorize_retrieval(record, ALICE, &right, true, NOW), Ok(()));
    assert!(password_unlocks(record.unwrap(), &right));
    assert!(!password_unlocks(record.unwrap(), &wrong));
    assert!(!password_unlocks(record.unwrap(), &None));
    assert!(!password_unlocks(record.unwrap(), &Some(String::new())));
}

#[test]
fn record_without_password_is_open_to_any_password() {
    let mut state = state(false);
    let id = upload(&mut state, "alice@example.com", None).unwrap();
    let record = state.db_client.files.load_for_authorization(id).unwrap();
    assert!(password_unlocks(record, &None));
    assert!(password_unlocks(record, &Some("anything".to_string())));
}

#[test]
fn two_uploads_of_one_file_differ() {
    let mut state = state(false);
    let first = upload(&mut state, "alice@example.com", None).unwrap();
    let second = upload(&mut state, "alice@example.com", None).unwrap();
    assert_ne!(first, second);
    let a = state.db_client.files.load_for_authorization(first).unwrap();
    let b = state.db_client.files.load_for_authorization(second).unwrap();
    assert_ne!(a.ciphertext, b.ciphertext);
    assert_ne!(a.wrapped_key, b.wrapped_key);
}

#[test]
fn identifiers_are_counted_on_through_every_step() {
    let mut state = state(false);
    assert_eq!(state.db_client.files.next_record_id(), 0);
    let first = upload(&mut state, "alice@example.com", None).unwrap();
    assert_eq!(state.db_client.files.next_record_id(), first + 1);
    assert!(upload(&mut state, "bob@example.com", None).is_err());
    assert_eq!(state.db_client.files.next_record_id(), first + 1);
    retrieve_file(&mut state, ALICE, first, &ask(None, "alice-pw"), NOW).unwrap();
    assert_eq!(state.db_client.files.next_record_id(), first + 1);
    let report = run_once(&mut state, TOMORROW_AT);
    assert_eq!(report.deleted, 1);
    assert_eq!(state.db_client.files.len(), 0);
    assert_eq!(state.db_client.files.next_record_id(), first + 1);
    let second = upload(&mut state, "alice@example.com", None).unwrap();
    assert_eq!(second, first + 1);
}

#[test]
fn uploaded_file_is_listed_and_downloaded() {
    let mut state = state(false);
    let id = upload(&mut state, "alice@example.com", None).unwrap();
    let query = RequestQueryDto { page: None, limit: None };
    let list = get_user_shared_files(&state, ALICE, &query).unwrap();
    assert_eq!(list.len(), 1);
    assert_eq!(list[0].id, id);
    assert_eq!(list[0].filename, "report.pdf");
    assert_eq!(list[0].size_bytes, 10);
    let download = retrieve_file(&mut state, ALICE, id, &ask(None, "alice-pw"), NOW + 1).unwrap();
    assert_eq!(download.plaintext, b"0123456789".to_vec());
    assert_eq!(download.filename, "report.pdf");
}
