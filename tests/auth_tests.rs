use vinylkeeper::auth::{AuthError, CreateUser, UserService};
use vinylkeeper::claims::TokenKind;
use vinylkeeper::directory::{NewUser, UserDirectory};
use vinylkeeper::mail::{password_reset_template, MailSubject};
use vinylkeeper::role::Role;
use vinylkeeper::token::{TokenAuthority, TokenError, ACCESS_TTL, RESET_TTL};

const SIGNING_DER: [u8; 1191] = [
    48, 130, 4, 163, 2, 1, 0, 2, 130, 1, 1, 0, 220, 99, 187, 111, 228, 47, 23, 156,
    67, 24, 170, 154, 221, 177, 101, 241, 167, 142, 34, 166, 242, 234, 180, 225, 73, 236, 197, 110,
    211, 102, 215, 180, 231, 118, 40, 151, 205, 225, 222, 6, 232, 136, 168, 165, 183, 70, 35, 157,
    208, 37, 130, 246, 80, 236, 58, 186, 123, 223, 78, 198, 130, 103, 100, 235, 132, 160, 201, 84,
    214, 206, 254, 38, 58, 94, 175, 136, 251, 111, 240, 104, 103, 5, 185, 26, 173, 178, 145, 90,
    12, 197, 212, 92, 107, 250, 96, 82, 234, 21, 39, 170, 99, 224, 2, 201, 216, 200, 170, 167,
    79, 0, 106, 226, 182, 221, 90, 74, 193, 147, 102, 8, 125, 31, 183, 195, 214, 109, 242, 95,
    92, 160, 231, 147, 44, 147, 32, 162, 84, 153, 60, 21, 137, 16, 23, 239, 196, 0, 124, 45,
    114, 122, 119, 115, 102, 250, 56, 8, 233, 187, 199, 71, 194, 250, 93, 209, 187, 236, 252, 163,
    54, 204, 209, 114, 128, 141, 104, 63, 117, 14, 222, 236, 131, 213, 255, 202, 32, 185, 60, 24,
    253, 110, 140, 185, 202, 63, 159, 230, 82, 189, 135, 129, 87, 23, 2, 56, 160, 213, 218, 132,
    146, 135, 103, 82, 145, 234, 68, 2, 127, 240, 71, 201, 99, 197, 25, 218, 128, 61, 140, 169,
    37, 141, 143, 9, 166, 25, 16, 201, 177, 158, 33, 142, 147, 79, 193, 98, 65, 34, 64, 78,
    142, 186, 106, 196, 58, 189, 0, 127, 2, 3, 1, 0, 1, 2, 130, 1, 0, 38, 156, 170,
    136, 45, 248, 58, 48, 188, 104, 163, 235, 66, 16, 4, 134, 84, 14, 200, 239, 106, 251, 199,
    248, 248, 148, 172, 250, 127, 187, 50, 235, 148, 233, 212, 174, 211, 249, 80, 134, 241, 82, 144,
    9, 136, 148, 151, 68, 220, 228, 213, 143, 6, 26, 125, 39, 146, 240, 74, 194, 232, 177, 232,
    178, 130, 168, 16, 221, 246, 76, 137, 166, 116, 239, 133, 221, 127, 255, 218, 164, 207, 247, 230,
    184, 79, 218, 75, 48, 245, 175, 235, 70, 205, 252, 45, 200, 25, 14, 223, 198, 48, 125, 92,
    191, 180, 101, 99, 208, 176, 60, 168, 125, 84, 0, 112, 3, 76, 234, 224, 35, 120, 152, 135,
    255, 157, 159, 225, 168, 148, 59, 42, 220, 92, 103, 46, 6, 252, 109, 144, 167, 191, 81, 187,
    242, 51, 108, 143, 105, 183, 86, 215, 48, 153, 217, 12, 103, 52, 66, 113, 137, 39, 193, 73,
    70, 102, 138, 56, 143, 219, 147, 32, 25, 68, 200, 51, 138, 213, 207, 240, 24, 220, 143, 38,
    166, 56, 249, 218, 11, 99, 144, 104, 148, 192, 81, 35, 205, 8, 13, 246, 46, 12, 26, 131,
    27, 94, 219, 16, 2, 60, 189, 23, 244, 156, 133, 44, 170, 19, 208, 218, 94, 50, 116, 141,
    175, 242, 139, 65, 11, 240, 50, 99, 57, 59, 183, 13, 97, 132, 253, 24, 150, 236, 62, 88,
    127, 154, 123, 66, 23, 96, 169, 126, 110, 5, 139, 131, 193, 2, 129, 129, 0, 240, 151, 151,
    94, 209, 223, 105, 72, 179, 105, 63, 213, 154, 231, 243, 246, 156, 138, 34, 240, 26, 6, 163,
    54, 134, 83, 91, 78, 46, 166, 0, 231, 161, 112, 10, 193, 23, 180, 110, 106, 207, 221, 17,
    244, 113, 89, 86, 37, 2, 93, 32, 140, 178, 64, 192, 68, 53, 173, 4, 98, 240, 111, 211,
    73, 239, 222, 38, 232, 53, 226, 82, 11, 183, 154, 11, 131, 53, 222, 172, 31, 67, 176, 129,
    150, 25, 51, 197, 238, 39, 5, 46, 220, 118, 253, 125, 31, 126, 201, 113, 178, 209, 135, 31,
    226, 179, 185, 75, 70, 3, 210, 143, 169, 112, 17, 84, 80, 44, 89, 166, 178, 202, 133, 254,
    89, 22, 44, 1, 79, 2, 129, 129, 0, 234, 128, 237, 148, 27, 214, 147, 195, 42, 235, 28,
    163, 117, 140, 90, 164, 216, 121, 69, 225, 120, 94, 25, 230, 248, 154, 243, 96, 84, 56, 97,
    235, 115, 102, 138, 2, 62, 23, 170, 193, 212, 133, 69, 77, 134, 47, 120, 118, 93, 149, 212,
    212, 162, 69, 103, 0, 38, 227, 77, 239, 69, 58, 189, 199, 242, 38, 133, 30, 33, 246, 80,
    180, 102, 204, 193, 108, 165, 49, 67, 197, 76, 0, 33, 12, 174, 92, 122, 249, 137, 128, 155,
    210, 164, 100, 20, 171, 169, 57, 133, 107, 147, 132, 38, 144, 201, 65, 28, 219, 63, 152, 133,
    161, 201, 47, 109, 64, 8, 128, 112, 43, 51, 90, 31, 164, 136, 95, 97, 209, 2, 129, 129,
    0, 146, 121, 7, 219, 223, 83, 239, 138, 38, 72, 14, 103, 226, 30, 19, 5, 241, 185, 155,
    153, 167, 142, 160, 241, 2, 8, 95, 143, 18, 145, 87, 253, 172, 232, 68, 115, 216, 21, 174,
    31, 115, 27, 56, 226, 35, 219, 234, 185, 47, 94, 57, 1, 207, 71, 226, 133, 228, 83, 200,
    86, 223, 224, 132, 182, 255, 196, 180, 213, 44, 112, 243, 216, 84, 88, 1, 104, 73, 116, 158,
    63, 142, 123, 55, 249, 132, 176, 99, 113, 32, 234, 99, 228, 46, 193, 22, 219, 4, 218, 105,
    81, 31, 132, 239, 97, 154, 95, 85, 183, 115, 126, 78, 158, 46, 47, 46, 176, 124, 191, 187,
    224, 31, 178, 65, 238, 68, 180, 87, 187, 2, 129, 128, 17, 167, 159, 59, 85, 85, 52, 78,
    175, 62, 128, 43, 118, 64, 24, 218, 236, 73, 69, 15, 146, 134, 83, 32, 230, 122, 147, 244,
    30, 163, 24, 12, 39, 230, 2, 97, 228, 214, 215, 78, 60, 119, 196, 29, 240, 10, 70, 225,
    114, 110, 67, 85, 182, 217, 206, 197, 94, 40, 34, 199, 238, 200, 91, 93, 96, 71, 178, 33,
    240, 160, 160, 182, 212, 62, 122, 25, 121, 222, 89, 161, 210, 244, 247, 136, 2, 224, 135, 137,
    157, 230, 134, 212, 182, 247, 169, 238, 186, 144, 208, 16, 167, 76, 125, 178, 204, 212, 16, 30,
    25, 141, 156, 17, 240, 25, 151, 250, 8, 41, 211, 72, 13, 87, 173, 166, 47, 118, 46, 225,
    2, 129, 128, 110, 155, 226, 192, 230, 139, 106, 40, 0, 146, 111, 80, 157, 14, 213, 254, 241,
    112, 54, 33, 63, 83, 93, 171, 230, 145, 168, 203, 164, 28, 84, 113, 205, 78, 18, 203, 213,
    159, 143, 173, 75, 211, 105, 69, 123, 117, 90, 19, 239, 203, 34, 183, 225, 206, 148, 107, 20,
    71, 67, 60, 225, 241, 189, 169, 8, 178, 74, 239, 212, 147, 137, 217, 244, 85, 44, 158, 94,
    191, 124, 202, 124, 148, 244, 52, 113, 190, 239, 162, 131, 166, 114, 3, 165, 32, 193, 166, 9,
    70, 223, 182, 111, 81, 191, 163, 15, 201, 15, 158, 54, 56, 134, 189, 205, 223, 95, 239, 141,
    249, 35, 54, 237, 90, 105, 224, 215, 98, 60, 207,
];

const OTHER_SIGNING_DER: [u8; 1192] = [
    48, 130, 4, 164, 2, 1, 0, 2, 130, 1, 1, 0, 183, 45, 190, 240, 162, 94, 67, 149,
    14, 201, 22, 121, 201, 220, 196, 40, 86, 158, 42, 188, 164, 194, 234, 138, 182, 75, 106, 199,
    202, 204, 153, 207, 88, 205, 80, 54, 70, 230, 194, 237, 152, 129, 12, 33, 241, 36, 38, 240,
    195, 51, 2, 250, 118, 18, 138, 87, 190, 175, 160, 17, 30, 209, 69, 110, 216, 9, 212, 235,
    162, 245, 165, 197, 166, 243, 9, 123, 64, 222, 14, 25, 174, 176, 43, 200, 103, 54, 4, 175,
    51, 126, 54, 46, 190, 132, 33, 148, 153, 117, 180, 249, 167, 178, 84, 101, 234, 96, 32, 8,
    17, 92, 168, 214, 163, 21, 30, 82, 62, 211, 98, 115, 21, 9, 3, 232, 150, 46, 74, 235,
    116, 248, 98, 167, 163, 27, 0, 249, 160, 98, 24, 197, 10, 133, 58, 72, 72, 234, 175, 3,
    5, 219, 21, 45, 93, 60, 162, 197, 135, 71, 219, 177, 46, 164, 197, 176, 236, 58, 250, 114,
    47, 12, 72, 181, 26, 200, 190, 179, 216, 193, 17, 65, 6, 193, 157, 224, 106, 151, 86, 108,
    100, 102, 11, 205, 209, 101, 31, 122, 177, 164, 240, 45, 29, 193, 60, 88, 134, 2, 154, 142,
    186, 42, 182, 31, 163, 39, 248, 227, 245, 118, 11, 159, 119, 241, 191, 64, 140, 96, 3, 25,
    38, 249, 83, 26, 41, 155, 237, 117, 193, 74, 54, 165, 219, 57, 35, 196, 46, 135, 81, 254,
    54, 245, 2, 97, 212, 47, 174, 207, 2, 3, 1, 0, 1, 2, 130, 1, 0, 40, 145, 238,
    47, 55, 150, 239, 26, 237, 90, 102, 42, 245, 37, 123, 32, 128, 6, 169, 234, 124, 7, 91,
    144, 251, 76, 250, 202, 99, 69, 43, 111, 187, 248, 69, 34, 176, 83, 93, 170, 231, 210, 245,
    15, 243, 107, 145, 96, 83, 171, 81, 166, 141, 78, 15, 235, 221, 36, 226, 171, 200, 10, 139,
    121, 64, 73, 245, 41, 119, 63, 54, 198, 238, 241, 247, 16, 160, 78, 78, 11, 44, 32, 130,
    161, 241, 18, 10, 185, 143, 11, 14, 15, 14, 77, 15, 110, 237, 10, 31, 218, 7, 101, 60,
    194, 17, 197, 214, 114, 82, 254, 21, 186, 236, 5, 186, 96, 118, 223, 180, 119, 78, 154, 95,
    142, 60, 236, 229, 212, 157, 170, 74, 53, 194, 182, 132, 231, 92, 251, 204, 44, 248, 110, 150,
    92, 254, 85, 131, 251, 188, 104, 93, 17, 230, 49, 218, 231, 19, 230, 155, 26, 108, 61, 69,
    85, 94, 206, 14, 53, 38, 24, 206, 81, 237, 146, 15, 166, 247, 6, 5, 63, 222, 213, 229,
    90, 231, 222, 123, 209, 168, 49, 140, 122, 242, 236, 100, 105, 134, 59, 116, 117, 141, 165, 16,
    64, 74, 20, 224, 181, 174, 133, 56, 245, 167, 46, 15, 28, 209, 70, 131, 142, 180, 114, 19,
    61, 133, 255, 211, 50, 73, 181, 134, 240, 49, 9, 161, 25, 181, 181, 122, 62, 55, 22, 53,
    133, 92, 73, 93, 72, 12, 35, 113, 66, 25, 146, 194, 25, 2, 129, 129, 0, 246, 118, 0,
    49, 193, 172, 195, 148, 243, 13, 93, 163, 9, 212, 114, 16, 43, 211, 211, 254, 184, 151, 117,
    47, 225, 34, 136, 240, 191, 172, 20, 70, 85, 57, 171, 84, 169, 104, 227, 49, 73, 71, 74,
    54, 66, 81, 160, 60, 210, 13, 96, 210, 149, 195, 141, 39, 204, 100, 34, 98, 22, 10, 160,
    186, 91, 18, 216, 172, 114, 160, 155, 24, 64, 74, 235, 214, 146, 44, 243, 68, 127, 255, 130,
    130, 165, 99, 202, 124, 48, 53, 103, 160, 18, 216, 180, 251, 232, 111, 6, 57, 171, 228, 73,
    45, 236, 211, 62, 151, 202, 110, 220, 192, 221, 49, 12, 143, 0, 13, 0, 58, 138, 150, 43,
    22, 155, 149, 33, 197, 2, 129, 129, 0, 190, 68, 186, 101, 181, 121, 118, 178, 157, 220, 77,
    161, 21, 107, 247, 103, 198, 33, 88, 10, 97, 49, 47, 154, 96, 210, 108, 54, 229, 188, 235,
    47, 63, 129, 157, 127, 77, 155, 97, 128, 89, 142, 134, 32, 206, 177, 212, 18, 105, 201, 83,
    43, 84, 212, 148, 116, 114, 129, 168, 103, 254, 67, 161, 189, 225, 117, 175, 132, 126, 171, 64,
    240, 163, 18, 179, 244, 190, 208, 165, 245, 18, 115, 187, 220, 87, 53, 81, 38, 251, 181, 161,
    25, 240, 61, 74, 30, 242, 48, 180, 224, 133, 229, 154, 5, 126, 115, 9, 36, 253, 214, 119,
    113, 24, 32, 116, 68, 139, 245, 88, 54, 82, 214, 55, 230, 60, 43, 59, 131, 2, 129, 129,
    0, 187, 247, 205, 56, 37, 141, 28, 241, 121, 217, 132, 195, 182, 216, 135, 81, 220, 11, 71,
    144, 234, 185, 224, 207, 110, 118, 71, 88, 205, 230, 112, 228, 31, 85, 199, 92, 223, 131, 182,
    90, 189, 151, 152, 122, 255, 99, 127, 193, 67, 54, 158, 212, 157, 18, 50, 146, 218, 232, 183,
    236, 117, 1, 16, 10, 113, 49, 83, 125, 90, 67, 49, 102, 114, 138, 113, 138, 9, 156, 44,
    192, 222, 154, 65, 176, 96, 113, 86, 90, 22, 238, 116, 36, 250, 154, 186, 149, 177, 117, 19,
    155, 98, 132, 206, 103, 47, 75, 1, 95, 5, 46, 62, 64, 253, 177, 205, 241, 54, 73, 180,
    21, 241, 226, 139, 228, 71, 46, 155, 61, 2, 129, 129, 0, 176, 193, 4, 48, 12, 64, 68,
    70, 118, 99, 252, 49, 210, 198, 179, 213, 81, 184, 20, 35, 192, 90, 131, 16, 117, 53, 197,
    149, 210, 34, 136, 145, 33, 251, 245, 38, 24, 32, 106, 153, 99, 153, 5, 125, 96, 198, 206,
    110, 52, 155, 244, 137, 98, 139, 1, 70, 148, 65, 99, 3, 8, 176, 39, 135, 79, 245, 150,
    18, 13, 226, 101, 183, 166, 166, 111, 74, 196, 32, 236, 171, 24, 115, 47, 103, 232, 19, 253,
    201, 171, 55, 245, 235, 52, 196, 155, 32, 216, 120, 234, 239, 81, 52, 20, 187, 89, 214, 223,
    253, 223, 89, 231, 39, 198, 244, 15, 78, 198, 126, 43, 110, 123, 209, 201, 168, 54, 233, 42,
    165, 2, 129, 128, 43, 251, 129, 133, 61, 197, 149, 41, 168, 76, 110, 213, 155, 207, 184, 133,
    28, 37, 138, 117, 232, 182, 197, 156, 56, 85, 213, 54, 33, 205, 251, 238, 248, 118, 102, 211,
    117, 62, 181, 189, 39, 5, 205, 10, 67, 69, 55, 56, 96, 142, 146, 234, 174, 192, 98, 89,
    111, 45, 205, 126, 68, 204, 55, 98, 3, 59, 186, 42, 55, 10, 14, 65, 110, 126, 104, 96,
    22, 61, 89, 152, 222, 172, 186, 247, 150, 129, 170, 60, 188, 201, 172, 203, 39, 85, 109, 54,
    215, 68, 22, 74, 117, 62, 132, 230, 163, 164, 77, 129, 194, 121, 61, 234, 171, 19, 163, 140,
    0, 137, 81, 6, 186, 225, 115, 174, 101, 66, 233, 130,
];

const VERIFYING_DER: [u8; 270] = [
    48, 130, 1, 10, 2, 130, 1, 1, 0, 220, 99, 187, 111, 228, 47, 23, 156, 67, 24, 170,
    154, 221, 177, 101, 241, 167, 142, 34, 166, 242, 234, 180, 225, 73, 236, 197, 110, 211, 102, 215,
    180, 231, 118, 40, 151, 205, 225, 222, 6, 232, 136, 168, 165, 183, 70, 35, 157, 208, 37, 130,
    246, 80, 236, 58, 186, 123, 223, 78, 198, 130, 103, 100, 235, 132, 160, 201, 84, 214, 206, 254,
    38, 58, 94, 175, 136, 251, 111, 240, 104, 103, 5, 185, 26, 173, 178, 145, 90, 12, 197, 212,
    92, 107, 250, 96, 82, 234, 21, 39, 170, 99, 224, 2, 201, 216, 200, 170, 167, 79, 0, 106,
    226, 182, 221, 90, 74, 193, 147, 102, 8, 125, 31, 183, 195, 214, 109, 242, 95, 92, 160, 231,
    147, 44, 147, 32, 162, 84, 153, 60, 21, 137, 16, 23, 239, 196, 0, 124, 45, 114, 122, 119,
    115, 102, 250, 56, 8, 233, 187, 199, 71, 194, 250, 93, 209, 187, 236, 252, 163, 54, 204, 209,
    114, 128, 141, 104, 63, 117, 14, 222, 236, 131, 213, 255, 202, 32, 185, 60, 24, 253, 110, 140,
    185, 202, 63, 159, 230, 82, 189, 135, 129, 87, 23, 2, 56, 160, 213, 218, 132, 146, 135, 103,
    82, 145, 234, 68, 2, 127, 240, 71, 201, 99, 197, 25, 218, 128, 61, 140, 169, 37, 141, 143,
    9, 166, 25, 16, 201, 177, 158, 33, 142, 147, 79, 193, 98, 65, 34, 64, 78, 142, 186, 106,
    196, 58, 189, 0, 127, 2, 3, 1, 0, 1,
];

/// Test key material, kept as DER bytes and wrapped into PEM text on use.
fn pem(label: &str, der: &[u8]) -> Vec<u8> {
    let alphabet: Vec<u8> = (b'A'..=b'Z').chain(b'a'..=b'z').chain(b'0'..=b'9').chain([b'+', b'/']).collect();
    let mut b64 = String::new();
    for chunk in der.chunks(3) {
        let n = chunk.len();
        let v = (chunk[0] as u32) << 16
            | (if n > 1 { chunk[1] as u32 } else { 0 }) << 8
            | (if n > 2 { chunk[2] as u32 } else { 0 });
        for k in 0..4 {
            if k <= n {
                b64.push(alphabet[((v >> (18 - 6 * k)) & 63) as usize] as char);
            } else {
                b64.push('=');
            }
        }
    }
    let mut out = format!("-----BEGIN {}-----\n", label);
    for line in b64.as_bytes().chunks(64) {
        out.push_str(std::str::from_utf8(line).unwrap());
        out.push('\n');
    }
    out.push_str(&format!("-----END {}-----\n", label));
    out.into_bytes()
}

fn authority() -> TokenAuthority {
    TokenAuthority::new(pem("RSA PRIVATE KEY", &SIGNING_DER), pem("RSA PUBLIC KEY", &VERIFYING_DER))
}

fn forger() -> TokenAuthority {
    TokenAuthority::new(pem("RSA PRIVATE KEY", &OTHER_SIGNING_DER), pem("RSA PUBLIC KEY", &VERIFYING_DER))
}

const NOW: u64 = 1_700_000_000;

fn service() -> UserService {
    UserService::new(authority(), UserDirectory::new())
}

fn new_user(email: &str, password: &str) -> NewUser {
    NewUser {
        username: "alice".to_string(),
        email: email.to_string(),
        password: password.to_string(),
        is_accepted_terms: true,
        timezone: "Europe/Paris".to_string(),
    }
}

#[test]
fn register_then_login() {
    let mut s = service();
    let reg = s.create_user(new_user("a@example.org", "s3cret"), NOW).unwrap();
    assert_eq!(s.directory.len(), 1);
    let stored = s.directory.get(0);
    assert_eq!(stored.email, "a@example.org");
    assert_ne!(stored.password, "s3cret");
    assert_eq!(stored.role_id, 2);
    assert!(stored.is_active && !stored.is_superuser);
    assert_eq!(stored.last_login, None);
    let uuid = stored.uuid_user;
    let reg_claims = s.authority.verify(&reg.access_token, TokenKind::Access, NOW).unwrap();
    assert_eq!(reg_claims.subject, uuid);

    let tokens = s.authenticate("a@example.org", "s3cret", NOW + 60).unwrap();
    let c = s.authority.verify(&tokens.access_token, TokenKind::Access, NOW + 61).unwrap();
    assert_eq!(c.subject, uuid);
    assert_eq!(c.role, Some(Role::User));
    assert_eq!(c.exp, NOW + 60 + ACCESS_TTL);
    let r = s.authority.verify(&tokens.refresh_token, TokenKind::Refresh, NOW + 61).unwrap();
    assert_eq!(r.subject, uuid);
    assert_eq!(s.directory.get(0).last_login, Some(NOW + 60));
}

#[test]
fn wrong_password_and_unknown_email_fail_alike() {
    let mut s = service();
    s.create_user(new_user("a@example.org", "s3cret"), NOW).unwrap();
    assert_eq!(s.authenticate("a@example.org", "wrong", NOW).err(), Some(AuthError::InvalidCredentials));
    assert_eq!(s.authenticate("b@example.org", "s3cret", NOW).err(), Some(AuthError::InvalidCredentials));
    assert_eq!(s.directory.get(0).last_login, None);
    assert_eq!(AuthError::InvalidCredentials.status_code(), 401);
}

#[test]
fn register_twice_with_the_same_email() {
    let mut s = service();
    assert!(s.create_user(new_user("dup@example.org", "one"), NOW).is_ok());
    let second = s.create_user(new_user("dup@example.org", "two"), NOW + 1);
    assert_eq!(second.err(), Some(AuthError::UserAlreadyExists));
    assert_eq!(s.directory.len(), 1);
    assert!(s.authenticate("dup@example.org", "one", NOW + 2).is_ok());
    assert_eq!(AuthError::UserAlreadyExists.status_code(), 409);
}

#[test]
fn requested_role_is_ignored_on_registration() {
    let req = CreateUser {
        username: "eve".to_string(),
        email: "eve@example.org".to_string(),
        password: "pw".to_string(),
        is_accepted_terms: true,
        role_id: Some(1),
        timezone: "UTC".to_string(),
    };
    let mut s = service();
    let tokens = s.create_user(NewUser::from(req), NOW).unwrap();
    assert_eq!(s.directory.get(0).role_id, 2);
    let c = s.authority.verify(&tokens.access_token, TokenKind::Access, NOW).unwrap();
    assert_eq!(c.role, Some(Role::User));
}

#[test]
fn refresh_keeps_subject_and_role() {
    let mut s = service();
    let tokens = s.create_user(new_user("r@example.org", "pw"), NOW).unwrap();
    let fresh = s.refresh_jwt(&tokens.refresh_token, NOW + 3600).unwrap();
    let r = s.authority.verify(&tokens.refresh_token, TokenKind::Refresh, NOW + 3600).unwrap();
    let a = s.authority.verify(&fresh, TokenKind::Access, NOW + 3600).unwrap();
    assert_eq!(a.subject, r.subject);
    assert_eq!(a.role, r.role);
    assert_eq!(a.exp, NOW + 3600 + ACCESS_TTL);
}

#[test]
fn refresh_refuses_bad_tokens() {
    let mut s = service();
    let tokens = s.create_user(new_user("r@example.org", "pw"), NOW).unwrap();
    assert_eq!(s.refresh_jwt(&tokens.access_token, NOW).err(), Some(AuthError::InvalidToken));
    assert_eq!(s.refresh_jwt("garbage", NOW).err(), Some(AuthError::InvalidToken));
    assert_eq!(s.refresh_jwt(&tokens.refresh_token, NOW + 8 * 24 * 3600).err(), Some(AuthError::InvalidToken));
    let forged = forger().generate_refresh_token_at(1, Role::Admin, NOW).unwrap();
    assert_eq!(s.refresh_jwt(&forged, NOW).err(), Some(AuthError::InvalidToken));
}

fn token_from_mail(body: &str) -> String {
    let start = body.find("token=").unwrap() + "token=".len();
    let end = body[start..].find('"').unwrap() + start;
    body[start..end].to_string()
}

#[test]
fn password_reset_end_to_end() {
    let mut s = service();
    s.create_user(new_user("p@example.org", "old password"), NOW).unwrap();
    let mail = s.send_password_reset_email("p@example.org", "http://127.0.0.1:5173", NOW).unwrap();
    assert_eq!(mail.to, "p@example.org");
    assert_eq!(mail.subject, MailSubject::PasswordReset);
    let token = token_from_mail(&mail.body);
    assert_eq!(mail.body, password_reset_template("http://127.0.0.1:5173", &token));
    assert_eq!(s.authority.verify(&token, TokenKind::Access, NOW), Err(TokenError::TokenInvalid));
    assert_eq!(
        s.authority.verify(&token, TokenKind::Reset, NOW + RESET_TTL),
        Err(TokenError::TokenExpired)
    );
    assert_eq!(s.reset_password(&token, "new password", NOW + RESET_TTL).err(), Some(AuthError::InvalidToken));
    assert!(s.authenticate("p@example.org", "old password", NOW + 1).is_ok());

    s.reset_password(&token, "new password", NOW + 10).unwrap();
    assert_eq!(s.directory.get(0).updated_at, NOW);
    assert_eq!(s.directory.get(0).registered_at, NOW);
    assert!(s.authenticate("p@example.org", "new password", NOW + 20).is_ok());
    assert_eq!(
        s.authenticate("p@example.org", "old password", NOW + 20).err(),
        Some(AuthError::InvalidCredentials)
    );
}

#[test]
fn reset_requires_a_reset_token() {
    let mut s = service();
    let tokens = s.create_user(new_user("q@example.org", "pw"), NOW).unwrap();
    assert_eq!(s.reset_password(&tokens.access_token, "x", NOW).err(), Some(AuthError::InvalidToken));
    assert_eq!(s.reset_password(&tokens.refresh_token, "x", NOW).err(), Some(AuthError::InvalidToken));
    let stray = s.authority.generate_reset_token_at(12345, NOW).unwrap();
    assert_eq!(s.reset_password(&stray, "x", NOW).err(), Some(AuthError::DatabaseError));
    assert!(s.authenticate("q@example.org", "pw", NOW).is_ok());
}

#[test]
fn reset_request_for_unknown_email() {
    let s = service();
    assert_eq!(
        s.send_password_reset_email("nobody@example.org", "http://x", NOW).err(),
        Some(AuthError::InvalidCredentials)
    );
}

#[test]
fn status_table() {
    let mut s = service();
    s.create_user(new_user("m@example.org", "pw"), NOW).unwrap();
    let tokens = s.authenticate("m@example.org", "pw", NOW).unwrap();
    assert!(!tokens.access_token.is_empty());
    assert_eq!(AuthError::PasswordHashError.status_code(), 400);
    assert_eq!(AuthError::DatabaseError.status_code(), 500);
    assert_eq!(AuthError::InvalidToken.status_code(), 401);
    assert_eq!(AuthError::EmailTimeoutError.status_code(), 504);
}
